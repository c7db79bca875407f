use vstd::prelude::*;

use crate::branch::{decode_branches, spec_decode_branches, Branch};
use crate::errors::DecodeError;
use crate::input::{jview, jviews, val_get, val_is_object};
use crate::json::{
    decode_elems, decode_string_elems, field_arr, get_field_array, lemma_decode_elems_prefix_err,
    spec_decode_strings, Json,
};
use crate::region::{decode_region, decode_regions, spec_decode_region, spec_decode_regions, Region};

verus! {

/// Metrics of one expansion: an expanded macro or an inclusion directive,
/// linking the usage site to the expanded content's own coverage data.
#[derive(Debug, PartialEq)]
pub struct Expansion {
    /// The files that the indices in `branches`, `source_region` and
    /// `target_regions` refer to.
    pub filenames: Vec<String>,
    /// The branches of the expanded content; a branch's `file_id` is an
    /// index into `filenames`, such as the header the branch lives in.
    pub branches: Vec<Branch>,
    /// The site and the direction of the expansion. Indexing `filenames`
    /// with `source_region.file_id` gives the file in which the macro or
    /// inclusion directive was used, and the region's range says where in
    /// it; indexing with `source_region.expanded_file_id` gives the file
    /// expanded into.
    pub source_region: Region,
    /// The regions of the expanded content.
    pub target_regions: Vec<Region>,
}

/// The mathematical content of an `Expansion`.
pub struct ExpansionV {
    pub filenames: Seq<Seq<char>>,
    pub branches: Seq<Branch>,
    pub source_region: Region,
    pub target_regions: Seq<Region>,
}

impl View for Expansion {
    type V = ExpansionV;

    open spec fn view(&self) -> ExpansionV {
        ExpansionV {
            filenames: self.filenames@.map_values(|x: String| x@),
            branches: self.branches@,
            source_region: self.source_region,
            target_regions: self.target_regions@,
        }
    }
}

/// The decode of one expansion: a structured object composing filenames,
/// branches and regions; no cross-check ties the region's file indices to
/// the `filenames` bounds, since upstream data has been seen to break such
/// checks.
pub open spec fn spec_decode_expansion(j: Json) -> Result<ExpansionV, DecodeError> {
    match j {
        Json::Obj(m) => match field_arr(m, "filenames"@) {
            Ok(fs) => match spec_decode_strings(fs) {
                Ok(filenames) => match field_arr(m, "branches"@) {
                    Ok(bs) => match spec_decode_branches(bs) {
                        Ok(branches) => if !m.contains_key("source_region"@) {
                            Err(DecodeError::MissingField)
                        } else {
                            match spec_decode_region(m["source_region"@]) {
                                Ok(source_region) => match field_arr(m, "target_regions"@) {
                                    Ok(ts) => match spec_decode_regions(ts) {
                                        Ok(target_regions) => Ok(
                                            ExpansionV {
                                                filenames,
                                                branches,
                                                source_region,
                                                target_regions,
                                            },
                                        ),
                                        Err(e) => Err(e),
                                    },
                                    Err(e) => Err(e),
                                },
                                Err(e) => Err(e),
                            }
                        },
                        Err(e) => Err(e),
                    },
                    Err(e) => Err(e),
                },
                Err(e) => Err(e),
            },
            Err(e) => Err(e),
        },
        _ => Err(DecodeError::TypeMismatch),
    }
}

/// Decodes one expansion object.
pub fn decode_expansion(v: &serde_json::Value) -> (r: Result<Expansion, DecodeError>)
    ensures
        match r {
            Ok(x) => spec_decode_expansion(jview(*v)) == Ok::<ExpansionV, DecodeError>(x@),
            Err(e) => spec_decode_expansion(jview(*v)) == Err::<ExpansionV, DecodeError>(e),
        },
{
    if !val_is_object(v) {
        return Err(DecodeError::TypeMismatch);
    }
    let fs_arr = match get_field_array(v, "filenames") {
        Ok(a) => a,
        Err(e) => {
            return Err(e);
        },
    };
    let filenames = match decode_string_elems(fs_arr) {
        Ok(x) => x,
        Err(e) => {
            return Err(e);
        },
    };
    let bs_arr = match get_field_array(v, "branches") {
        Ok(a) => a,
        Err(e) => {
            return Err(e);
        },
    };
    let branches = match decode_branches(bs_arr) {
        Ok(x) => x,
        Err(e) => {
            return Err(e);
        },
    };
    let source_region = match val_get(v, "source_region") {
        None => {
            return Err(DecodeError::MissingField);
        },
        Some(f) => match decode_region(f) {
            Ok(x) => x,
            Err(e) => {
                return Err(e);
            },
        },
    };
    let ts_arr = match get_field_array(v, "target_regions") {
        Ok(a) => a,
        Err(e) => {
            return Err(e);
        },
    };
    let target_regions = match decode_regions(ts_arr) {
        Ok(x) => x,
        Err(e) => {
            return Err(e);
        },
    };
    Ok(Expansion { filenames, branches, source_region, target_regions })
}

/// The element decoder of an array of expansions, as a function value.
pub open spec fn expansion_elem_fn() -> spec_fn(Json) -> Result<ExpansionV, DecodeError> {
    |j: Json| spec_decode_expansion(j)
}

/// The decode of an array of expansions, in order, first error first.
pub open spec fn spec_decode_expansions(s: Seq<Json>) -> Result<Seq<ExpansionV>, DecodeError> {
    decode_elems(s, expansion_elem_fn())
}

/// Decodes every element of an array as an expansion.
pub(crate) fn decode_expansions(arr: &Vec<serde_json::Value>) -> (r: Result<
    Vec<Expansion>,
    DecodeError,
>)
    ensures
        match r {
            Ok(es) => spec_decode_expansions(jviews(arr@)) == Ok::<Seq<ExpansionV>, DecodeError>(
                es@.map_values(|x: Expansion| x@),
            ),
            Err(e) => spec_decode_expansions(jviews(arr@)) == Err::<Seq<ExpansionV>, DecodeError>(
                e,
            ),
        },
{
    let ghost s = jviews(arr@);
    let mut es: Vec<Expansion> = Vec::new();
    proof {
        assert(es@.map_values(|x: Expansion| x@) =~= Seq::<ExpansionV>::empty());
    }
    let mut i: usize = 0;
    while i < arr.len()
        invariant
            s == jviews(arr@),
            i <= arr@.len(),
            decode_elems(s.take(i as int), expansion_elem_fn()) == Ok::<
                Seq<ExpansionV>,
                DecodeError,
            >(es@.map_values(|x: Expansion| x@)),
        decreases arr@.len() - i,
    {
        proof {
            assert(s.take(i + 1).drop_last() =~= s.take(i as int));
            assert(s[i as int] == jview(arr@[i as int]));
        }
        match decode_expansion(&arr[i]) {
            Ok(x) => {
                let ghost pre = es@;
                es.push(x);
                proof {
                    assert(es@ =~= pre.push(x));
                    assert(es@.map_values(|x: Expansion| x@) =~= pre.map_values(
                        |x: Expansion| x@,
                    ).push(x@));
                }
            },
            Err(e) => {
                proof {
                    lemma_decode_elems_prefix_err(s, expansion_elem_fn(), i + 1);
                }
                return Err(e);
            },
        }
        i = i + 1;
    }
    proof {
        assert(s.take(arr@.len() as int) =~= s);
    }
    Ok(es)
}

} // verus!
