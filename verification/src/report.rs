use vstd::prelude::*;

use crate::errors::DecodeError;
use crate::file::{decode_file, spec_decode_file, FileMetrics, FileMetricsV};
use crate::function::{decode_function, spec_decode_function, FunctionMetrics, FunctionMetricsV};
use crate::input::{jview, jviews, parse_json, parsed_json, val_get, val_is_object};
use crate::json::{
    decode_elems, field_arr, field_str, get_field_array, get_field_string,
    lemma_decode_elems_prefix_err, Json,
};
use crate::summary::{decode_summary, spec_decode_summary, Summary};

verus! {

/// One export object: the totals of one export run and its per-file and
/// per-function metrics.
#[derive(Debug, PartialEq)]
pub struct ExportObject {
    /// Summary of all coverage data in this export.
    pub summary: Summary,
    /// Per-file metrics.
    pub files: Vec<FileMetrics>,
    /// Per-function metrics.
    pub functions: Vec<FunctionMetrics>,
}

/// The mathematical content of an `ExportObject`.
pub struct ExportObjectV {
    pub summary: Summary,
    pub files: Seq<FileMetricsV>,
    pub functions: Seq<FunctionMetricsV>,
}

impl View for ExportObject {
    type V = ExportObjectV;

    open spec fn view(&self) -> ExportObjectV {
        ExportObjectV {
            summary: self.summary,
            files: self.files@.map_values(|x: FileMetrics| x@),
            functions: self.functions@.map_values(|x: FunctionMetrics| x@),
        }
    }
}

/// The element decoder of an array of file metrics, as a function value.
pub open spec fn file_elem_fn() -> spec_fn(Json) -> Result<FileMetricsV, DecodeError> {
    |j: Json| spec_decode_file(j)
}

/// The decode of an array of file metrics, in order, first error first.
pub open spec fn spec_decode_files(s: Seq<Json>) -> Result<Seq<FileMetricsV>, DecodeError> {
    decode_elems(s, file_elem_fn())
}

/// Decodes every element of an array as one file's metrics.
pub(crate) fn decode_files(arr: &Vec<serde_json::Value>) -> (r: Result<
    Vec<FileMetrics>,
    DecodeError,
>)
    ensures
        match r {
            Ok(fs) => spec_decode_files(jviews(arr@)) == Ok::<Seq<FileMetricsV>, DecodeError>(
                fs@.map_values(|x: FileMetrics| x@),
            ),
            Err(e) => spec_decode_files(jviews(arr@)) == Err::<Seq<FileMetricsV>, DecodeError>(e),
        },
{
    let ghost s = jviews(arr@);
    let mut fs: Vec<FileMetrics> = Vec::new();
    proof {
        assert(fs@.map_values(|x: FileMetrics| x@) =~= Seq::<FileMetricsV>::empty());
    }
    let mut i: usize = 0;
    while i < arr.len()
        invariant
            s == jviews(arr@),
            i <= arr@.len(),
            decode_elems(s.take(i as int), file_elem_fn()) == Ok::<
                Seq<FileMetricsV>,
                DecodeError,
            >(fs@.map_values(|x: FileMetrics| x@)),
        decreases arr@.len() - i,
    {
        proof {
            assert(s.take(i + 1).drop_last() =~= s.take(i as int));
            assert(s[i as int] == jview(arr@[i as int]));
        }
        match decode_file(&arr[i]) {
            Ok(x) => {
                let ghost pre = fs@;
                fs.push(x);
                proof {
                    assert(fs@ =~= pre.push(x));
                    assert(fs@.map_values(|x: FileMetrics| x@) =~= pre.map_values(
                        |x: FileMetrics| x@,
                    ).push(x@));
                }
            },
            Err(e) => {
                proof {
                    lemma_decode_elems_prefix_err(s, file_elem_fn(), i + 1);
                }
                return Err(e);
            },
        }
        i = i + 1;
    }
    proof {
        assert(s.take(arr@.len() as int) =~= s);
    }
    Ok(fs)
}

/// The element decoder of an array of function metrics, as a function value.
pub open spec fn function_elem_fn() -> spec_fn(Json) -> Result<FunctionMetricsV, DecodeError> {
    |j: Json| spec_decode_function(j)
}

/// The decode of an array of function metrics, in order, first error first.
pub open spec fn spec_decode_functions(s: Seq<Json>) -> Result<Seq<FunctionMetricsV>, DecodeError> {
    decode_elems(s, function_elem_fn())
}

/// Decodes every element of an array as one function's metrics.
pub(crate) fn decode_functions(arr: &Vec<serde_json::Value>) -> (r: Result<
    Vec<FunctionMetrics>,
    DecodeError,
>)
    ensures
        match r {
            Ok(fs) => spec_decode_functions(jviews(arr@)) == Ok::<
                Seq<FunctionMetricsV>,
                DecodeError,
            >(fs@.map_values(|x: FunctionMetrics| x@)),
            Err(e) => spec_decode_functions(jviews(arr@)) == Err::<
                Seq<FunctionMetricsV>,
                DecodeError,
            >(e),
        },
{
    let ghost s = jviews(arr@);
    let mut fs: Vec<FunctionMetrics> = Vec::new();
    proof {
        assert(fs@.map_values(|x: FunctionMetrics| x@) =~= Seq::<FunctionMetricsV>::empty());
    }
    let mut i: usize = 0;
    while i < arr.len()
        invariant
            s == jviews(arr@),
            i <= arr@.len(),
            decode_elems(s.take(i as int), function_elem_fn()) == Ok::<
                Seq<FunctionMetricsV>,
                DecodeError,
            >(fs@.map_values(|x: FunctionMetrics| x@)),
        decreases arr@.len() - i,
    {
        proof {
            assert(s.take(i + 1).drop_last() =~= s.take(i as int));
            assert(s[i as int] == jview(arr@[i as int]));
        }
        match decode_function(&arr[i]) {
            Ok(x) => {
                let ghost pre = fs@;
                fs.push(x);
                proof {
                    assert(fs@ =~= pre.push(x));
                    assert(fs@.map_values(|x: FunctionMetrics| x@) =~= pre.map_values(
                        |x: FunctionMetrics| x@,
                    ).push(x@));
                }
            },
            Err(e) => {
                proof {
                    lemma_decode_elems_prefix_err(s, function_elem_fn(), i + 1);
                }
                return Err(e);
            },
        }
        i = i + 1;
    }
    proof {
        assert(s.take(arr@.len() as int) =~= s);
    }
    Ok(fs)
}

/// The decode of one export object: its totals and its file and function
/// metrics, all three required.
pub open spec fn spec_decode_export(j: Json) -> Result<ExportObjectV, DecodeError> {
    match j {
        Json::Obj(m) => if !m.contains_key("totals"@) {
            Err(DecodeError::MissingField)
        } else {
            match spec_decode_summary(m["totals"@]) {
                Ok(summary) => match field_arr(m, "files"@) {
                    Ok(fs) => match spec_decode_files(fs) {
                        Ok(files) => match field_arr(m, "functions"@) {
                            Ok(gs) => match spec_decode_functions(gs) {
                                Ok(functions) => Ok(
                                    ExportObjectV { summary, files, functions },
                                ),
                                Err(e) => Err(e),
                            },
                            Err(e) => Err(e),
                        },
                        Err(e) => Err(e),
                    },
                    Err(e) => Err(e),
                },
                Err(e) => Err(e),
            }
        },
        _ => Err(DecodeError::TypeMismatch),
    }
}

/// Decodes one export object.
pub fn decode_export(v: &serde_json::Value) -> (r: Result<ExportObject, DecodeError>)
    ensures
        match r {
            Ok(x) => spec_decode_export(jview(*v)) == Ok::<ExportObjectV, DecodeError>(x@),
            Err(e) => spec_decode_export(jview(*v)) == Err::<ExportObjectV, DecodeError>(e),
        },
{
    if !val_is_object(v) {
        return Err(DecodeError::TypeMismatch);
    }
    let summary = match val_get(v, "totals") {
        None => {
            return Err(DecodeError::MissingField);
        },
        Some(f) => match decode_summary(f) {
            Ok(x) => x,
            Err(e) => {
                return Err(e);
            },
        },
    };
    let fs_arr = match get_field_array(v, "files") {
        Ok(a) => a,
        Err(e) => {
            return Err(e);
        },
    };
    let files = match decode_files(fs_arr) {
        Ok(x) => x,
        Err(e) => {
            return Err(e);
        },
    };
    let gs_arr = match get_field_array(v, "functions") {
        Ok(a) => a,
        Err(e) => {
            return Err(e);
        },
    };
    let functions = match decode_functions(gs_arr) {
        Ok(x) => x,
        Err(e) => {
            return Err(e);
        },
    };
    Ok(ExportObject { summary, files, functions })
}

/// The element decoder of the top-level data array, as a function value.
pub open spec fn export_elem_fn() -> spec_fn(Json) -> Result<ExportObjectV, DecodeError> {
    |j: Json| spec_decode_export(j)
}

/// The decode of the top-level data array, in order, first error first.
pub open spec fn spec_decode_exports(s: Seq<Json>) -> Result<Seq<ExportObjectV>, DecodeError> {
    decode_elems(s, export_elem_fn())
}

/// Decodes every element of the top-level data array as an export object.
pub(crate) fn decode_exports(arr: &Vec<serde_json::Value>) -> (r: Result<
    Vec<ExportObject>,
    DecodeError,
>)
    ensures
        match r {
            Ok(es) => spec_decode_exports(jviews(arr@)) == Ok::<Seq<ExportObjectV>, DecodeError>(
                es@.map_values(|x: ExportObject| x@),
            ),
            Err(e) => spec_decode_exports(jviews(arr@)) == Err::<Seq<ExportObjectV>, DecodeError>(
                e,
            ),
        },
{
    let ghost s = jviews(arr@);
    let mut es: Vec<ExportObject> = Vec::new();
    proof {
        assert(es@.map_values(|x: ExportObject| x@) =~= Seq::<ExportObjectV>::empty());
    }
    let mut i: usize = 0;
    while i < arr.len()
        invariant
            s == jviews(arr@),
            i <= arr@.len(),
            decode_elems(s.take(i as int), export_elem_fn()) == Ok::<
                Seq<ExportObjectV>,
                DecodeError,
            >(es@.map_values(|x: ExportObject| x@)),
        decreases arr@.len() - i,
    {
        proof {
            assert(s.take(i + 1).drop_last() =~= s.take(i as int));
            assert(s[i as int] == jview(arr@[i as int]));
        }
        match decode_export(&arr[i]) {
            Ok(x) => {
                let ghost pre = es@;
                es.push(x);
                proof {
                    assert(es@ =~= pre.push(x));
                    assert(es@.map_values(|x: ExportObject| x@) =~= pre.map_values(
                        |x: ExportObject| x@,
                    ).push(x@));
                }
            },
            Err(e) => {
                proof {
                    lemma_decode_elems_prefix_err(s, export_elem_fn(), i + 1);
                }
                return Err(e);
            },
        }
        i = i + 1;
    }
    proof {
        assert(s.take(arr@.len() as int) =~= s);
    }
    Ok(es)
}

/// The root of a decoded coverage export.
#[derive(Debug, PartialEq)]
pub struct CoverageReport {
    /// The version of the exported data.
    pub version: String,
    /// The type of exported data; the producing tool sets it to
    /// llvm.coverage.json.export.
    pub export_type: String,
    /// The actual coverage data: documented upstream as one or more export
    /// objects, though in practice one element is observed. Nothing here
    /// assumes a length of one.
    pub data: Vec<ExportObject>,
}

/// The mathematical content of a `CoverageReport`.
pub struct CoverageReportV {
    pub version: Seq<char>,
    pub export_type: Seq<char>,
    pub data: Seq<ExportObjectV>,
}

impl View for CoverageReport {
    type V = CoverageReportV;

    open spec fn view(&self) -> CoverageReportV {
        CoverageReportV {
            version: self.version@,
            export_type: self.export_type@,
            data: self.data@.map_values(|x: ExportObject| x@),
        }
    }
}

/// The decode of the top-level object: the version and type tags and the
/// data array, all three required; the tags' values are carried verbatim.
pub open spec fn spec_decode_report(j: Json) -> Result<CoverageReportV, DecodeError> {
    match j {
        Json::Obj(m) => match field_str(m, "version"@) {
            Ok(version) => match field_str(m, "type"@) {
                Ok(export_type) => match field_arr(m, "data"@) {
                    Ok(ds) => match spec_decode_exports(ds) {
                        Ok(data) => Ok(CoverageReportV { version, export_type, data }),
                        Err(e) => Err(e),
                    },
                    Err(e) => Err(e),
                },
                Err(e) => Err(e),
            },
            Err(e) => Err(e),
        },
        _ => Err(DecodeError::TypeMismatch),
    }
}

/// The decode of a whole text: the parse of the text, then the decode of
/// the parsed document; a text the parser rejects fails with the syntax
/// error's position and nothing else is returned.
pub open spec fn spec_decode_text(s: Seq<char>) -> Result<CoverageReportV, DecodeError> {
    match parsed_json(s) {
        Ok(j) => spec_decode_report(j),
        Err(pos) => Err(DecodeError::Syntax { line: pos.0, column: pos.1 }),
    }
}

/// Decodes the top-level object of a parsed document.
pub fn decode_report(v: &serde_json::Value) -> (r: Result<CoverageReport, DecodeError>)
    ensures
        match r {
            Ok(x) => spec_decode_report(jview(*v)) == Ok::<CoverageReportV, DecodeError>(x@),
            Err(e) => spec_decode_report(jview(*v)) == Err::<CoverageReportV, DecodeError>(e),
        },
{
    if !val_is_object(v) {
        return Err(DecodeError::TypeMismatch);
    }
    let version = match get_field_string(v, "version") {
        Ok(x) => x,
        Err(e) => {
            return Err(e);
        },
    };
    let export_type = match get_field_string(v, "type") {
        Ok(x) => x,
        Err(e) => {
            return Err(e);
        },
    };
    let ds_arr = match get_field_array(v, "data") {
        Ok(a) => a,
        Err(e) => {
            return Err(e);
        },
    };
    let data = match decode_exports(ds_arr) {
        Ok(x) => x,
        Err(e) => {
            return Err(e);
        },
    };
    Ok(CoverageReport { version, export_type, data })
}

impl CoverageReport {
    /// The single entry point: decodes raw JSON text into a coverage report
    /// tree in one pass, all or nothing. Decoding is a pure function of the
    /// text: the outcome, success with a given tree or failure with a given
    /// error, is fixed by the text alone.
    pub fn from_str(s: &str) -> (r: Result<CoverageReport, DecodeError>)
        ensures
            match r {
                Ok(rep) => spec_decode_text(s@) == Ok::<CoverageReportV, DecodeError>(rep@),
                Err(e) => spec_decode_text(s@) == Err::<CoverageReportV, DecodeError>(e),
            },
    {
        let v = match parse_json(s) {
            Ok(v) => v,
            Err((line, column)) => {
                return Err(DecodeError::Syntax { line, column });
            },
        };
        decode_report(&v)
    }
}

/// What it is for a parsed document to conform to the schema this crate
/// reads: the whole tree decodes, and the two top-level tags carry the
/// schema's fixed version and type strings.
pub open spec fn conforms_to_schema(j: Json) -> bool {
    &&& spec_decode_report(j) is Ok
    &&& j is Obj
    &&& j->Obj_0.contains_key("version"@)
    &&& j->Obj_0["version"@] == Json::Str("2.0.1"@)
    &&& j->Obj_0.contains_key("type"@)
    &&& j->Obj_0["type"@] == Json::Str("llvm.coverage.json.export"@)
}

/// Law: on every document that conforms to the schema, the decode succeeds
/// and the report carries the schema's version and type tags verbatim.
pub proof fn lemma_schema_tags(j: Json)
    requires
        conforms_to_schema(j),
    ensures
        spec_decode_report(j) is Ok,
        spec_decode_report(j)->Ok_0.version == "2.0.1"@,
        spec_decode_report(j)->Ok_0.export_type == "llvm.coverage.json.export"@,
{
}

/// Law: decoding is a pure function of the input text. Two decodes of one
/// text have one outcome: the same tree, or the same error.
pub proof fn lemma_decode_pure(s1: Seq<char>, s2: Seq<char>)
    requires
        s1 == s2,
    ensures
        spec_decode_text(s1) == spec_decode_text(s2),
{
}

} // verus!
