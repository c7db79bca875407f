use vstd::prelude::*;

use crate::errors::DecodeError;
use crate::input::{jview, jviews, val_as_array, val_as_u64};
use crate::json::{decode_elems, lemma_decode_elems_len, lemma_decode_elems_prefix_err, Json};

verus! {

/// The kind a code region can belong to: a closed set of five tags.
#[derive(Debug, Clone, Copy, PartialEq, Eq, Structural)]
pub enum RegionKind {
    /// Ordinary code with one execution counter.
    Code,
    /// A file expansion region: the range where a macro was instantiated or
    /// a header was pulled in, tied to the expanded virtual source file.
    Expansion,
    /// A source range the preprocessor or similar means skipped.
    Skipped,
    /// Like code, but its count sets the line execution count only when it
    /// is the only region on the line.
    Gap,
    /// A leaf-level boolean expression, with one counter per truth value.
    Branch,
}

/// The decode of a raw kind tag: the five known tags name the five kinds in
/// order, and any other value is an error that preserves the tag.
pub open spec fn spec_kind(tag: u64) -> Result<RegionKind, DecodeError> {
    if tag == 0 {
        Ok(RegionKind::Code)
    } else if tag == 1 {
        Ok(RegionKind::Expansion)
    } else if tag == 2 {
        Ok(RegionKind::Skipped)
    } else if tag == 3 {
        Ok(RegionKind::Gap)
    } else if tag == 4 {
        Ok(RegionKind::Branch)
    } else {
        Err(DecodeError::UnknownRegionKind(tag))
    }
}

impl RegionKind {
    /// Total, explicit fallible conversion from the raw tag integer.
    pub fn try_from(value: u64) -> (r: Result<RegionKind, DecodeError>)
        ensures
            r == spec_kind(value),
    {
        if value == 0 {
            Ok(RegionKind::Code)
        } else if value == 1 {
            Ok(RegionKind::Expansion)
        } else if value == 2 {
            Ok(RegionKind::Skipped)
        } else if value == 3 {
            Ok(RegionKind::Gap)
        } else if value == 4 {
            Ok(RegionKind::Branch)
        } else {
            Err(DecodeError::UnknownRegionKind(value))
        }
    }
}

/// Law: the tag set is closed. Each tag up to the largest known one decodes
/// to its kind, and every tag past it fails with the tag preserved.
pub proof fn lemma_kind_tag_range(tag: u64)
    ensures
        spec_kind(tag) is Ok <==> tag <= 4,
        spec_kind(0) == Ok::<RegionKind, DecodeError>(RegionKind::Code),
        spec_kind(1) == Ok::<RegionKind, DecodeError>(RegionKind::Expansion),
        spec_kind(2) == Ok::<RegionKind, DecodeError>(RegionKind::Skipped),
        spec_kind(3) == Ok::<RegionKind, DecodeError>(RegionKind::Gap),
        spec_kind(4) == Ok::<RegionKind, DecodeError>(RegionKind::Branch),
        tag > 4 ==> spec_kind(tag) == Err::<RegionKind, DecodeError>(
            DecodeError::UnknownRegionKind(tag),
        ),
{
}

/// A source-code range with an execution count, a file reference and a kind.
/// `file_id` and `expanded_file_id` are indices into the `filenames` array
/// of the enclosing record, not values of their own.
#[derive(Debug, Clone, Copy, PartialEq, Eq, Structural)]
pub struct Region {
    /// The source code line this region starts on.
    pub line_start: u64,
    /// The column of `line_start` where this region starts.
    pub column_start: u64,
    /// The source code line this region ends on.
    pub line_end: u64,
    /// The column of `line_end` where this region ends.
    pub column_end: u64,
    /// Number of times this region was executed.
    pub execution_count: u64,
    /// Index of the file this region belongs to.
    pub file_id: u64,
    /// Index of the file this region comes from, when the kind is
    /// `RegionKind::Expansion`: the header or macro definition site.
    pub expanded_file_id: u64,
    /// The kind of region.
    pub kind: RegionKind,
}

/// A positional element must be a non-negative 64-bit integer; anything else
/// is a shape error of the enclosing array.
pub open spec fn spec_elem_u64(j: Json) -> Result<u64, DecodeError> {
    match j {
        Json::Num { integer, .. } => match integer {
            Some(u) => Ok(u),
            None => Err(DecodeError::ShapeMismatch),
        },
        _ => Err(DecodeError::ShapeMismatch),
    }
}

/// The element decoder of a positional array, as a function value.
pub open spec fn elem_u64_fn() -> spec_fn(Json) -> Result<u64, DecodeError> {
    |j: Json| spec_elem_u64(j)
}

/// The decode of all elements of a positional array into integers.
pub open spec fn spec_u64_elems(s: Seq<Json>) -> Result<Seq<u64>, DecodeError> {
    decode_elems(s, elem_u64_fn())
}

/// Reads every element of an array as a non-negative 64-bit integer.
pub(crate) fn decode_u64_elems(arr: &Vec<serde_json::Value>) -> (r: Result<Vec<u64>, DecodeError>)
    ensures
        match r {
            Ok(ns) => spec_u64_elems(jviews(arr@)) == Ok::<Seq<u64>, DecodeError>(ns@),
            Err(e) => spec_u64_elems(jviews(arr@)) == Err::<Seq<u64>, DecodeError>(e),
        },
{
    let ghost s = jviews(arr@);
    let mut ns: Vec<u64> = Vec::new();
    let mut i: usize = 0;
    while i < arr.len()
        invariant
            s == jviews(arr@),
            i <= arr@.len(),
            decode_elems(s.take(i as int), elem_u64_fn()) == Ok::<Seq<u64>, DecodeError>(ns@),
        decreases arr@.len() - i,
    {
        proof {
            assert(s.take(i + 1).drop_last() =~= s.take(i as int));
            assert(s[i as int] == jview(arr@[i as int]));
        }
        match val_as_u64(&arr[i]) {
            Some(u) => {
                let ghost pre = ns@;
                ns.push(u);
                proof {
                    assert(ns@ =~= pre.push(u));
                }
            },
            None => {
                proof {
                    lemma_decode_elems_prefix_err(s, elem_u64_fn(), i + 1);
                }
                return Err(DecodeError::ShapeMismatch);
            },
        }
        i = i + 1;
    }
    proof {
        assert(s.take(arr@.len() as int) =~= s);
    }
    Ok(ns)
}

/// The decode of a region: a positional array of exactly eight non-negative
/// 64-bit integers, the last of which is the kind tag.
pub open spec fn spec_decode_region(j: Json) -> Result<Region, DecodeError> {
    match j {
        Json::Arr(s) => if s.len() != 8 {
            Err(DecodeError::ShapeMismatch)
        } else {
            match spec_u64_elems(s) {
                Ok(ns) => match spec_kind(ns[7]) {
                    Ok(kind) => Ok(
                        Region {
                            line_start: ns[0],
                            column_start: ns[1],
                            line_end: ns[2],
                            column_end: ns[3],
                            execution_count: ns[4],
                            file_id: ns[5],
                            expanded_file_id: ns[6],
                            kind,
                        },
                    ),
                    Err(e) => Err(e),
                },
                Err(e) => Err(e),
            }
        },
        _ => Err(DecodeError::ShapeMismatch),
    }
}

/// Law: a positional region array of any arity other than eight is rejected
/// as a shape error, never truncated or extended.
pub proof fn lemma_region_arity(j: Json)
    requires
        j matches Json::Arr(s) && s.len() != 8,
    ensures
        spec_decode_region(j) == Err::<Region, DecodeError>(DecodeError::ShapeMismatch),
{
}

/// Decodes one region from its positional array.
pub fn decode_region(v: &serde_json::Value) -> (r: Result<Region, DecodeError>)
    ensures
        r == spec_decode_region(jview(*v)),
{
    let arr = match val_as_array(v) {
        Some(a) => a,
        None => {
            return Err(DecodeError::ShapeMismatch);
        },
    };
    proof {
        assert(jviews(arr@) =~= jview(*v)->Arr_0);
    }
    if arr.len() != 8 {
        return Err(DecodeError::ShapeMismatch);
    }
    let ns = match decode_u64_elems(arr) {
        Ok(ns) => ns,
        Err(e) => {
            return Err(e);
        },
    };
    proof {
        lemma_decode_elems_len(jviews(arr@), elem_u64_fn());
    }
    let kind = match RegionKind::try_from(ns[7]) {
        Ok(k) => k,
        Err(e) => {
            return Err(e);
        },
    };
    Ok(
        Region {
            line_start: ns[0],
            column_start: ns[1],
            line_end: ns[2],
            column_end: ns[3],
            execution_count: ns[4],
            file_id: ns[5],
            expanded_file_id: ns[6],
            kind,
        },
    )
}

/// The element decoder of an array of regions, as a function value.
pub open spec fn region_elem_fn() -> spec_fn(Json) -> Result<Region, DecodeError> {
    |j: Json| spec_decode_region(j)
}

/// The decode of an array of regions, in order, first error first.
pub open spec fn spec_decode_regions(s: Seq<Json>) -> Result<Seq<Region>, DecodeError> {
    decode_elems(s, region_elem_fn())
}

/// Decodes every element of an array as a region.
pub(crate) fn decode_regions(arr: &Vec<serde_json::Value>) -> (r: Result<Vec<Region>, DecodeError>)
    ensures
        match r {
            Ok(rs) => spec_decode_regions(jviews(arr@)) == Ok::<Seq<Region>, DecodeError>(rs@),
            Err(e) => spec_decode_regions(jviews(arr@)) == Err::<Seq<Region>, DecodeError>(e),
        },
{
    let ghost s = jviews(arr@);
    let mut rs: Vec<Region> = Vec::new();
    let mut i: usize = 0;
    while i < arr.len()
        invariant
            s == jviews(arr@),
            i <= arr@.len(),
            decode_elems(s.take(i as int), region_elem_fn()) == Ok::<Seq<Region>, DecodeError>(
                rs@,
            ),
        decreases arr@.len() - i,
    {
        proof {
            assert(s.take(i + 1).drop_last() =~= s.take(i as int));
            assert(s[i as int] == jview(arr@[i as int]));
        }
        match decode_region(&arr[i]) {
            Ok(rg) => {
                let ghost pre = rs@;
                rs.push(rg);
                proof {
                    assert(rs@ =~= pre.push(rg));
                }
            },
            Err(e) => {
                proof {
                    lemma_decode_elems_prefix_err(s, region_elem_fn(), i + 1);
                }
                return Err(e);
            },
        }
        i = i + 1;
    }
    proof {
        assert(s.take(arr@.len() as int) =~= s);
    }
    Ok(rs)
}

} // verus!
