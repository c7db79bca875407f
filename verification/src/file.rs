use vstd::prelude::*;

use crate::branch::{decode_branches, spec_decode_branches, Branch};
use crate::errors::DecodeError;
use crate::expansion::{decode_expansions, spec_decode_expansions, Expansion, ExpansionV};
use crate::input::{jview, jviews, val_as_array, val_get, val_is_null, val_is_object};
use crate::json::{
    decode_elems, field_arr, field_bool, field_str, field_u64, get_field_array, get_field_bool,
    get_field_string, get_field_u64, lemma_decode_elems_prefix_err, Json,
};
use crate::summary::{decode_summary, spec_decode_summary, Summary};

verus! {

/// Execution count information starting at a point of a file. An ordered
/// sequence of segments, in their order of appearance, gives the execution
/// count of every position: each segment is in force until the next one.
#[derive(Debug, Clone, Copy, PartialEq, Eq, Structural)]
pub struct Segment {
    /// Source code line this segment starts on.
    pub line: u64,
    /// Column this segment starts on.
    pub col: u64,
    /// Number of times this segment was executed.
    pub count: u64,
    /// If false, the segment was not instrumented, or was skipped.
    pub has_count: bool,
    /// Whether this segment enters a new region.
    pub is_region_entry: bool,
    /// Whether this segment enters a gap region.
    pub is_gap_region: bool,
}

/// The decode of a segment: a structured object with six named fields, all
/// of them required.
pub open spec fn spec_decode_segment(j: Json) -> Result<Segment, DecodeError> {
    match j {
        Json::Obj(m) => match field_u64(m, "line"@) {
            Ok(line) => match field_u64(m, "col"@) {
                Ok(col) => match field_u64(m, "count"@) {
                    Ok(count) => match field_bool(m, "has_count"@) {
                        Ok(has_count) => match field_bool(m, "is_region_entry"@) {
                            Ok(is_region_entry) => match field_bool(m, "is_gap_region"@) {
                                Ok(is_gap_region) => Ok(
                                    Segment {
                                        line,
                                        col,
                                        count,
                                        has_count,
                                        is_region_entry,
                                        is_gap_region,
                                    },
                                ),
                                Err(e) => Err(e),
                            },
                            Err(e) => Err(e),
                        },
                        Err(e) => Err(e),
                    },
                    Err(e) => Err(e),
                },
                Err(e) => Err(e),
            },
            Err(e) => Err(e),
        },
        _ => Err(DecodeError::TypeMismatch),
    }
}

/// Decodes one segment object.
pub fn decode_segment(v: &serde_json::Value) -> (r: Result<Segment, DecodeError>)
    ensures
        r == spec_decode_segment(jview(*v)),
{
    if !val_is_object(v) {
        return Err(DecodeError::TypeMismatch);
    }
    let line = match get_field_u64(v, "line") {
        Ok(x) => x,
        Err(e) => {
            return Err(e);
        },
    };
    let col = match get_field_u64(v, "col") {
        Ok(x) => x,
        Err(e) => {
            return Err(e);
        },
    };
    let count = match get_field_u64(v, "count") {
        Ok(x) => x,
        Err(e) => {
            return Err(e);
        },
    };
    let has_count = match get_field_bool(v, "has_count") {
        Ok(x) => x,
        Err(e) => {
            return Err(e);
        },
    };
    let is_region_entry = match get_field_bool(v, "is_region_entry") {
        Ok(x) => x,
        Err(e) => {
            return Err(e);
        },
    };
    let is_gap_region = match get_field_bool(v, "is_gap_region") {
        Ok(x) => x,
        Err(e) => {
            return Err(e);
        },
    };
    Ok(Segment { line, col, count, has_count, is_region_entry, is_gap_region })
}

/// The element decoder of an array of segments, as a function value.
pub open spec fn segment_elem_fn() -> spec_fn(Json) -> Result<Segment, DecodeError> {
    |j: Json| spec_decode_segment(j)
}

/// The decode of an array of segments, in order, first error first.
pub open spec fn spec_decode_segments(s: Seq<Json>) -> Result<Seq<Segment>, DecodeError> {
    decode_elems(s, segment_elem_fn())
}

/// Decodes every element of an array as a segment.
pub(crate) fn decode_segments(arr: &Vec<serde_json::Value>) -> (r: Result<
    Vec<Segment>,
    DecodeError,
>)
    ensures
        match r {
            Ok(gs) => spec_decode_segments(jviews(arr@)) == Ok::<Seq<Segment>, DecodeError>(gs@),
            Err(e) => spec_decode_segments(jviews(arr@)) == Err::<Seq<Segment>, DecodeError>(e),
        },
{
    let ghost s = jviews(arr@);
    let mut gs: Vec<Segment> = Vec::new();
    let mut i: usize = 0;
    while i < arr.len()
        invariant
            s == jviews(arr@),
            i <= arr@.len(),
            decode_elems(s.take(i as int), segment_elem_fn()) == Ok::<Seq<Segment>, DecodeError>(
                gs@,
            ),
        decreases arr@.len() - i,
    {
        proof {
            assert(s.take(i + 1).drop_last() =~= s.take(i as int));
            assert(s[i as int] == jview(arr@[i as int]));
        }
        match decode_segment(&arr[i]) {
            Ok(g) => {
                let ghost pre = gs@;
                gs.push(g);
                proof {
                    assert(gs@ =~= pre.push(g));
                }
            },
            Err(e) => {
                proof {
                    lemma_decode_elems_prefix_err(s, segment_elem_fn(), i + 1);
                }
                return Err(e);
            },
        }
        i = i + 1;
    }
    proof {
        assert(s.take(arr@.len() as int) =~= s);
    }
    Ok(gs)
}

/// Per-file metrics: the file's own summary and its branches, segments and,
/// when the producing tool exported them, expansions.
#[derive(Debug, PartialEq)]
pub struct FileMetrics {
    /// Absolute path of the file.
    pub filename: String,
    /// Summary of all the file's metrics.
    pub summary: Summary,
    /// Branches in this file.
    pub branches: Vec<Branch>,
    /// The segments of the file, in their order of appearance.
    pub segments: Vec<Segment>,
    /// Expansions of this file. Absence means the producing tool did not
    /// export expansion data, which is not the same as a file with zero
    /// expansions.
    pub expansions: Option<Vec<Expansion>>,
}

/// The mathematical content of a `FileMetrics`.
pub struct FileMetricsV {
    pub filename: Seq<char>,
    pub summary: Summary,
    pub branches: Seq<Branch>,
    pub segments: Seq<Segment>,
    pub expansions: Option<Seq<ExpansionV>>,
}

impl View for FileMetrics {
    type V = FileMetricsV;

    open spec fn view(&self) -> FileMetricsV {
        FileMetricsV {
            filename: self.filename@,
            summary: self.summary,
            branches: self.branches@,
            segments: self.segments@,
            expansions: match self.expansions {
                Some(es) => Some(es@.map_values(|x: Expansion| x@)),
                None => None,
            },
        }
    }
}

/// The decode of the optional `expansions` field: an absent key and a
/// present-but-null value both mean no expansion data; anything else must
/// be an array of expansions.
pub open spec fn spec_expansions_field(m: Map<Seq<char>, Json>) -> Result<
    Option<Seq<ExpansionV>>,
    DecodeError,
> {
    if !m.contains_key("expansions"@) {
        Ok(None)
    } else if m["expansions"@] is Null {
        Ok(None)
    } else {
        match m["expansions"@] {
            Json::Arr(s) => match spec_decode_expansions(s) {
                Ok(es) => Ok(Some(es)),
                Err(e) => Err(e),
            },
            _ => Err(DecodeError::TypeMismatch),
        }
    }
}

/// The decode of one file's metrics.
pub open spec fn spec_decode_file(j: Json) -> Result<FileMetricsV, DecodeError> {
    match j {
        Json::Obj(m) => match field_str(m, "filename"@) {
            Ok(filename) => if !m.contains_key("summary"@) {
                Err(DecodeError::MissingField)
            } else {
                match spec_decode_summary(m["summary"@]) {
                    Ok(summary) => match field_arr(m, "branches"@) {
                        Ok(bs) => match spec_decode_branches(bs) {
                            Ok(branches) => match field_arr(m, "segments"@) {
                                Ok(sg) => match spec_decode_segments(sg) {
                                    Ok(segments) => match spec_expansions_field(m) {
                                        Ok(expansions) => Ok(
                                            FileMetricsV {
                                                filename,
                                                summary,
                                                branches,
                                                segments,
                                                expansions,
                                            },
                                        ),
                                        Err(e) => Err(e),
                                    },
                                    Err(e) => Err(e),
                                },
                                Err(e) => Err(e),
                            },
                            Err(e) => Err(e),
                        },
                        Err(e) => Err(e),
                    },
                    Err(e) => Err(e),
                }
            },
            Err(e) => Err(e),
        },
        _ => Err(DecodeError::TypeMismatch),
    }
}

/// Law: a present-but-null `expansions` field and an absent `expansions`
/// key decode alike, to the absence of expansion data, never to an empty
/// sequence of expansions.
pub proof fn lemma_expansions_absent_or_null(j: Json)
    requires
        j matches Json::Obj(m) && (!m.contains_key("expansions"@) || m["expansions"@] is Null),
        spec_decode_file(j) is Ok,
    ensures
        spec_decode_file(j)->Ok_0.expansions is None,
{
}

/// Decodes one file's metrics object.
pub fn decode_file(v: &serde_json::Value) -> (r: Result<FileMetrics, DecodeError>)
    ensures
        match r {
            Ok(x) => spec_decode_file(jview(*v)) == Ok::<FileMetricsV, DecodeError>(x@),
            Err(e) => spec_decode_file(jview(*v)) == Err::<FileMetricsV, DecodeError>(e),
        },
{
    if !val_is_object(v) {
        return Err(DecodeError::TypeMismatch);
    }
    let filename = match get_field_string(v, "filename") {
        Ok(x) => x,
        Err(e) => {
            return Err(e);
        },
    };
    let summary = match val_get(v, "summary") {
        None => {
            return Err(DecodeError::MissingField);
        },
        Some(f) => match decode_summary(f) {
            Ok(x) => x,
            Err(e) => {
                return Err(e);
            },
        },
    };
    let bs_arr = match get_field_array(v, "branches") {
        Ok(a) => a,
        Err(e) => {
            return Err(e);
        },
    };
    let branches = match decode_branches(bs_arr) {
        Ok(x) => x,
        Err(e) => {
            return Err(e);
        },
    };
    let sg_arr = match get_field_array(v, "segments") {
        Ok(a) => a,
        Err(e) => {
            return Err(e);
        },
    };
    let segments = match decode_segments(sg_arr) {
        Ok(x) => x,
        Err(e) => {
            return Err(e);
        },
    };
    let expansions = match val_get(v, "expansions") {
        None => None,
        Some(f) => if val_is_null(f) {
            None
        } else {
            match val_as_array(f) {
                None => {
                    return Err(DecodeError::TypeMismatch);
                },
                Some(a) => {
                    proof {
                        assert(jviews(a@) =~= jview(*f)->Arr_0);
                    }
                    match decode_expansions(a) {
                        Ok(es) => Some(es),
                        Err(e) => {
                            return Err(e);
                        },
                    }
                },
            }
        },
    };
    Ok(FileMetrics { filename, summary, branches, segments, expansions })
}

} // verus!
