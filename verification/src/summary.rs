use vstd::prelude::*;

use crate::errors::DecodeError;
use crate::input::{jview, val_get, val_is_object};
use crate::json::{field_bits, field_u64, get_field_bits, get_field_u64, Json};

verus! {

/// Summary of the branches metric. `percent_bits` is the IEEE 754 double
/// encoding of the covered fraction in percent, taken verbatim from the
/// document; no invariant ties it to `covered` and `count`, since the
/// producing tool rounds on its own.
#[derive(Debug, Clone, Copy, PartialEq, Eq, Structural)]
pub struct BranchSummary {
    /// Total number of branches that could potentially be covered.
    pub count: u64,
    /// Number of covered branches.
    pub covered: u64,
    /// Number of branches that have not been covered.
    pub notcovered: u64,
    /// The covered fraction in percent, as the bits of a double.
    pub percent_bits: u64,
}

/// Summary of the functions metric.
#[derive(Debug, Clone, Copy, PartialEq, Eq, Structural)]
pub struct FunctionSummary {
    /// Total number of functions.
    pub count: u64,
    /// Number of functions covered.
    pub covered: u64,
    /// The covered fraction in percent, as the bits of a double.
    pub percent_bits: u64,
}

/// Summary of the instantiations metric: how many macro instantiations or
/// template expansions exist and how many ran.
#[derive(Debug, Clone, Copy, PartialEq, Eq, Structural)]
pub struct InstantiationSummary {
    /// Total number of instantiations.
    pub count: u64,
    /// Number of instantiations that have been covered.
    pub covered: u64,
    /// The covered fraction in percent, as the bits of a double.
    pub percent_bits: u64,
}

/// Summary of the lines metric.
#[derive(Debug, Clone, Copy, PartialEq, Eq, Structural)]
pub struct LineSummary {
    /// Number of lines that could be covered.
    pub count: u64,
    /// Number of lines that have been covered.
    pub covered: u64,
    /// The covered fraction in percent, as the bits of a double.
    pub percent_bits: u64,
}

/// Summary of the regions metric.
#[derive(Debug, Clone, Copy, PartialEq, Eq, Structural)]
pub struct RegionSummary {
    /// Total number of regions.
    pub count: u64,
    /// Number of covered regions.
    pub covered: u64,
    /// Number of regions that have not been covered.
    pub notcovered: u64,
    /// The covered fraction in percent, as the bits of a double.
    pub percent_bits: u64,
}

/// Summary of the five metric categories of one file or of a whole export.
/// Values are taken verbatim from the document; nothing is recomputed.
#[derive(Debug, Clone, Copy, PartialEq, Eq, Structural)]
pub struct Summary {
    /// Summary of all branches.
    pub branches: BranchSummary,
    /// Summary of all functions.
    pub functions: FunctionSummary,
    /// Summary of all instantiations.
    pub instantiations: InstantiationSummary,
    /// Summary of all lines of code.
    pub lines: LineSummary,
    /// Summary of all regions.
    pub regions: RegionSummary,
}

/// The decode of a sub-summary that carries a `notcovered` count.
pub open spec fn spec_decode_wide_summary(j: Json) -> Result<
    (u64, u64, u64, u64),
    DecodeError,
> {
    match j {
        Json::Obj(m) => match field_u64(m, "count"@) {
            Ok(count) => match field_u64(m, "covered"@) {
                Ok(covered) => match field_u64(m, "notcovered"@) {
                    Ok(notcovered) => match field_bits(m, "percent"@) {
                        Ok(percent_bits) => Ok((count, covered, notcovered, percent_bits)),
                        Err(e) => Err(e),
                    },
                    Err(e) => Err(e),
                },
                Err(e) => Err(e),
            },
            Err(e) => Err(e),
        },
        _ => Err(DecodeError::TypeMismatch),
    }
}

/// The decode of a sub-summary without a `notcovered` count.
pub open spec fn spec_decode_narrow_summary(j: Json) -> Result<(u64, u64, u64), DecodeError> {
    match j {
        Json::Obj(m) => match field_u64(m, "count"@) {
            Ok(count) => match field_u64(m, "covered"@) {
                Ok(covered) => match field_bits(m, "percent"@) {
                    Ok(percent_bits) => Ok((count, covered, percent_bits)),
                    Err(e) => Err(e),
                },
                Err(e) => Err(e),
            },
            Err(e) => Err(e),
        },
        _ => Err(DecodeError::TypeMismatch),
    }
}

/// Reads the fields shared by the branch and region sub-summaries.
fn decode_wide_summary(v: &serde_json::Value) -> (r: Result<(u64, u64, u64, u64), DecodeError>)
    ensures
        r == spec_decode_wide_summary(jview(*v)),
{
    if !val_is_object(v) {
        return Err(DecodeError::TypeMismatch);
    }
    let count = match get_field_u64(v, "count") {
        Ok(x) => x,
        Err(e) => {
            return Err(e);
        },
    };
    let covered = match get_field_u64(v, "covered") {
        Ok(x) => x,
        Err(e) => {
            return Err(e);
        },
    };
    let notcovered = match get_field_u64(v, "notcovered") {
        Ok(x) => x,
        Err(e) => {
            return Err(e);
        },
    };
    let percent_bits = match get_field_bits(v, "percent") {
        Ok(x) => x,
        Err(e) => {
            return Err(e);
        },
    };
    Ok((count, covered, notcovered, percent_bits))
}

/// Reads the fields shared by the function, instantiation and line
/// sub-summaries.
fn decode_narrow_summary(v: &serde_json::Value) -> (r: Result<(u64, u64, u64), DecodeError>)
    ensures
        r == spec_decode_narrow_summary(jview(*v)),
{
    if !val_is_object(v) {
        return Err(DecodeError::TypeMismatch);
    }
    let count = match get_field_u64(v, "count") {
        Ok(x) => x,
        Err(e) => {
            return Err(e);
        },
    };
    let covered = match get_field_u64(v, "covered") {
        Ok(x) => x,
        Err(e) => {
            return Err(e);
        },
    };
    let percent_bits = match get_field_bits(v, "percent") {
        Ok(x) => x,
        Err(e) => {
            return Err(e);
        },
    };
    Ok((count, covered, percent_bits))
}

/// The decode of the branches sub-summary.
pub open spec fn spec_decode_branch_summary(j: Json) -> Result<BranchSummary, DecodeError> {
    match spec_decode_wide_summary(j) {
        Ok((count, covered, notcovered, percent_bits)) => Ok(
            BranchSummary { count, covered, notcovered, percent_bits },
        ),
        Err(e) => Err(e),
    }
}

/// The decode of the regions sub-summary.
pub open spec fn spec_decode_region_summary(j: Json) -> Result<RegionSummary, DecodeError> {
    match spec_decode_wide_summary(j) {
        Ok((count, covered, notcovered, percent_bits)) => Ok(
            RegionSummary { count, covered, notcovered, percent_bits },
        ),
        Err(e) => Err(e),
    }
}

/// The decode of the functions sub-summary.
pub open spec fn spec_decode_function_summary(j: Json) -> Result<FunctionSummary, DecodeError> {
    match spec_decode_narrow_summary(j) {
        Ok((count, covered, percent_bits)) => Ok(
            FunctionSummary { count, covered, percent_bits },
        ),
        Err(e) => Err(e),
    }
}

/// The decode of the instantiations sub-summary.
pub open spec fn spec_decode_instantiation_summary(j: Json) -> Result<
    InstantiationSummary,
    DecodeError,
> {
    match spec_decode_narrow_summary(j) {
        Ok((count, covered, percent_bits)) => Ok(
            InstantiationSummary { count, covered, percent_bits },
        ),
        Err(e) => Err(e),
    }
}

/// The decode of the lines sub-summary.
pub open spec fn spec_decode_line_summary(j: Json) -> Result<LineSummary, DecodeError> {
    match spec_decode_narrow_summary(j) {
        Ok((count, covered, percent_bits)) => Ok(LineSummary { count, covered, percent_bits }),
        Err(e) => Err(e),
    }
}

/// The decode of a whole summary: an object with the five named
/// sub-summaries, each itself a fixed-shape object.
pub open spec fn spec_decode_summary(j: Json) -> Result<Summary, DecodeError> {
    match j {
        Json::Obj(m) => if !m.contains_key("branches"@) {
            Err(DecodeError::MissingField)
        } else {
            match spec_decode_branch_summary(m["branches"@]) {
                Ok(branches) => if !m.contains_key("functions"@) {
                    Err(DecodeError::MissingField)
                } else {
                    match spec_decode_function_summary(m["functions"@]) {
                        Ok(functions) => if !m.contains_key("instantiations"@) {
                            Err(DecodeError::MissingField)
                        } else {
                            match spec_decode_instantiation_summary(m["instantiations"@]) {
                                Ok(instantiations) => if !m.contains_key("lines"@) {
                                    Err(DecodeError::MissingField)
                                } else {
                                    match spec_decode_line_summary(m["lines"@]) {
                                        Ok(lines) => if !m.contains_key("regions"@) {
                                            Err(DecodeError::MissingField)
                                        } else {
                                            match spec_decode_region_summary(m["regions"@]) {
                                                Ok(regions) => Ok(
                                                    Summary {
                                                        branches,
                                                        functions,
                                                        instantiations,
                                                        lines,
                                                        regions,
                                                    },
                                                ),
                                                Err(e) => Err(e),
                                            }
                                        },
                                        Err(e) => Err(e),
                                    }
                                },
                                Err(e) => Err(e),
                            }
                        },
                        Err(e) => Err(e),
                    }
                },
                Err(e) => Err(e),
            }
        },
        _ => Err(DecodeError::TypeMismatch),
    }
}

/// Decodes a whole summary object.
pub fn decode_summary(v: &serde_json::Value) -> (r: Result<Summary, DecodeError>)
    ensures
        r == spec_decode_summary(jview(*v)),
{
    if !val_is_object(v) {
        return Err(DecodeError::TypeMismatch);
    }
    let branches = match val_get(v, "branches") {
        None => {
            return Err(DecodeError::MissingField);
        },
        Some(f) => match decode_wide_summary(f) {
            Ok((count, covered, notcovered, percent_bits)) => BranchSummary {
                count,
                covered,
                notcovered,
                percent_bits,
            },
            Err(e) => {
                return Err(e);
            },
        },
    };
    let functions = match val_get(v, "functions") {
        None => {
            return Err(DecodeError::MissingField);
        },
        Some(f) => match decode_narrow_summary(f) {
            Ok((count, covered, percent_bits)) => FunctionSummary {
                count,
                covered,
                percent_bits,
            },
            Err(e) => {
                return Err(e);
            },
        },
    };
    let instantiations = match val_get(v, "instantiations") {
        None => {
            return Err(DecodeError::MissingField);
        },
        Some(f) => match decode_narrow_summary(f) {
            Ok((count, covered, percent_bits)) => InstantiationSummary {
                count,
                covered,
                percent_bits,
            },
            Err(e) => {
                return Err(e);
            },
        },
    };
    let lines = match val_get(v, "lines") {
        None => {
            return Err(DecodeError::MissingField);
        },
        Some(f) => match decode_narrow_summary(f) {
            Ok((count, covered, percent_bits)) => LineSummary { count, covered, percent_bits },
            Err(e) => {
                return Err(e);
            },
        },
    };
    let regions = match val_get(v, "regions") {
        None => {
            return Err(DecodeError::MissingField);
        },
        Some(f) => match decode_wide_summary(f) {
            Ok((count, covered, notcovered, percent_bits)) => RegionSummary {
                count,
                covered,
                notcovered,
                percent_bits,
            },
            Err(e) => {
                return Err(e);
            },
        },
    };
    Ok(Summary { branches, functions, instantiations, lines, regions })
}

} // verus!
