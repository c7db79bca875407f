use vstd::prelude::*;

use crate::branch::{decode_branches, spec_decode_branches, Branch};
use crate::errors::DecodeError;
use crate::input::{jview, val_is_object};
use crate::json::{
    decode_string_elems, field_arr, field_str, field_u64, get_field_array, get_field_string,
    get_field_u64, spec_decode_strings, Json,
};
use crate::region::{decode_regions, spec_decode_regions, Region};

verus! {

/// Metrics of one specific function.
#[derive(Debug, PartialEq)]
pub struct FunctionMetrics {
    /// Absolute file paths, indexed by the file ids of `branches` and
    /// `regions`.
    pub filenames: Vec<String>,
    /// Source-level branches in this function; a branch's file ids are
    /// indices into `filenames`.
    pub branches: Vec<Branch>,
    /// Number of times this function was called.
    pub count: u64,
    /// Name of the function.
    pub name: String,
    /// The regions of this function; a region's file ids are indices into
    /// `filenames`.
    pub regions: Vec<Region>,
}

/// The mathematical content of a `FunctionMetrics`.
pub struct FunctionMetricsV {
    pub filenames: Seq<Seq<char>>,
    pub branches: Seq<Branch>,
    pub count: u64,
    pub name: Seq<char>,
    pub regions: Seq<Region>,
}

impl View for FunctionMetrics {
    type V = FunctionMetricsV;

    open spec fn view(&self) -> FunctionMetricsV {
        FunctionMetricsV {
            filenames: self.filenames@.map_values(|x: String| x@),
            branches: self.branches@,
            count: self.count,
            name: self.name@,
            regions: self.regions@,
        }
    }
}

/// The decode of one function's metrics: a structured object with five
/// named fields, all of them required.
pub open spec fn spec_decode_function(j: Json) -> Result<FunctionMetricsV, DecodeError> {
    match j {
        Json::Obj(m) => match field_arr(m, "filenames"@) {
            Ok(fs) => match spec_decode_strings(fs) {
                Ok(filenames) => match field_arr(m, "branches"@) {
                    Ok(bs) => match spec_decode_branches(bs) {
                        Ok(branches) => match field_u64(m, "count"@) {
                            Ok(count) => match field_str(m, "name"@) {
                                Ok(name) => match field_arr(m, "regions"@) {
                                    Ok(rs) => match spec_decode_regions(rs) {
                                        Ok(regions) => Ok(
                                            FunctionMetricsV {
                                                filenames,
                                                branches,
                                                count,
                                                name,
                                                regions,
                                            },
                                        ),
                                        Err(e) => Err(e),
                                    },
                                    Err(e) => Err(e),
                                },
                                Err(e) => Err(e),
                            },
                            Err(e) => Err(e),
                        },
                        Err(e) => Err(e),
                    },
                    Err(e) => Err(e),
                },
                Err(e) => Err(e),
            },
            Err(e) => Err(e),
        },
        _ => Err(DecodeError::TypeMismatch),
    }
}

/// Decodes one function's metrics object.
pub fn decode_function(v: &serde_json::Value) -> (r: Result<FunctionMetrics, DecodeError>)
    ensures
        match r {
            Ok(x) => spec_decode_function(jview(*v)) == Ok::<FunctionMetricsV, DecodeError>(x@),
            Err(e) => spec_decode_function(jview(*v)) == Err::<FunctionMetricsV, DecodeError>(e),
        },
{
    if !val_is_object(v) {
        return Err(DecodeError::TypeMismatch);
    }
    let fs_arr = match get_field_array(v, "filenames") {
        Ok(a) => a,
        Err(e) => {
            return Err(e);
        },
    };
    let filenames = match decode_string_elems(fs_arr) {
        Ok(x) => x,
        Err(e) => {
            return Err(e);
        },
    };
    let bs_arr = match get_field_array(v, "branches") {
        Ok(a) => a,
        Err(e) => {
            return Err(e);
        },
    };
    let branches = match decode_branches(bs_arr) {
        Ok(x) => x,
        Err(e) => {
            return Err(e);
        },
    };
    let count = match get_field_u64(v, "count") {
        Ok(x) => x,
        Err(e) => {
            return Err(e);
        },
    };
    let name = match get_field_string(v, "name") {
        Ok(x) => x,
        Err(e) => {
            return Err(e);
        },
    };
    let rs_arr = match get_field_array(v, "regions") {
        Ok(a) => a,
        Err(e) => {
            return Err(e);
        },
    };
    let regions = match decode_regions(rs_arr) {
        Ok(x) => x,
        Err(e) => {
            return Err(e);
        },
    };
    Ok(FunctionMetrics { filenames, branches, count, name, regions })
}

} // verus!
