use vstd::prelude::*;

use crate::errors::DecodeError;
use crate::input::{jview, jviews, val_as_array};
use crate::json::{decode_elems, lemma_decode_elems_len, lemma_decode_elems_prefix_err, Json};
use crate::region::{decode_u64_elems, elem_u64_fn, spec_kind, spec_u64_elems, RegionKind};

verus! {

/// A single source-level branch and its metrics: a two-outcome boolean
/// condition, with one execution counter per truth value. It may comprise a
/// larger boolean expression built from logical operators; the range refers
/// to source code, not to the binary.
#[derive(Debug, Clone, Copy, PartialEq, Eq, Structural)]
pub struct Branch {
    /// Source line this branch condition starts on.
    pub line_start: u64,
    /// Column of `line_start` this branch starts on.
    pub column_start: u64,
    /// Source line where the branch ends.
    pub line_end: u64,
    /// Column of `line_end` where the branch ends.
    pub column_end: u64,
    /// Number of times the true branch was taken.
    pub execution_count: u64,
    /// Number of times the false branch was taken.
    pub false_execution_count: u64,
    /// Index of the file this branch originates from; inside an expansion
    /// this is, for instance, the header file.
    pub file_id: u64,
    /// Index of the file this branch has been expanded into, such as the
    /// file that used the macro.
    pub expanded_file_id: u64,
    /// The kind of this region.
    pub region_kind: RegionKind,
}

/// The decode of a branch: a positional array of exactly nine non-negative
/// 64-bit integers. The order is fixed by the upstream format: both
/// execution counters come before the two file indices, unlike a region's
/// layout, and the last element is the kind tag.
pub open spec fn spec_decode_branch(j: Json) -> Result<Branch, DecodeError> {
    match j {
        Json::Arr(s) => if s.len() != 9 {
            Err(DecodeError::ShapeMismatch)
        } else {
            match spec_u64_elems(s) {
                Ok(ns) => match spec_kind(ns[8]) {
                    Ok(region_kind) => Ok(
                        Branch {
                            line_start: ns[0],
                            column_start: ns[1],
                            line_end: ns[2],
                            column_end: ns[3],
                            execution_count: ns[4],
                            false_execution_count: ns[5],
                            file_id: ns[6],
                            expanded_file_id: ns[7],
                            region_kind,
                        },
                    ),
                    Err(e) => Err(e),
                },
                Err(e) => Err(e),
            }
        },
        _ => Err(DecodeError::ShapeMismatch),
    }
}

/// Law: a positional branch array of any arity other than nine is rejected
/// as a shape error, never truncated or extended.
pub proof fn lemma_branch_arity(j: Json)
    requires
        j matches Json::Arr(s) && s.len() != 9,
    ensures
        spec_decode_branch(j) == Err::<Branch, DecodeError>(DecodeError::ShapeMismatch),
{
}

/// Decodes one branch from its positional array.
pub fn decode_branch(v: &serde_json::Value) -> (r: Result<Branch, DecodeError>)
    ensures
        r == spec_decode_branch(jview(*v)),
{
    let arr = match val_as_array(v) {
        Some(a) => a,
        None => {
            return Err(DecodeError::ShapeMismatch);
        },
    };
    proof {
        assert(jviews(arr@) =~= jview(*v)->Arr_0);
    }
    if arr.len() != 9 {
        return Err(DecodeError::ShapeMismatch);
    }
    let ns = match decode_u64_elems(arr) {
        Ok(ns) => ns,
        Err(e) => {
            return Err(e);
        },
    };
    proof {
        lemma_decode_elems_len(jviews(arr@), elem_u64_fn());
    }
    let region_kind = match RegionKind::try_from(ns[8]) {
        Ok(k) => k,
        Err(e) => {
            return Err(e);
        },
    };
    Ok(
        Branch {
            line_start: ns[0],
            column_start: ns[1],
            line_end: ns[2],
            column_end: ns[3],
            execution_count: ns[4],
            false_execution_count: ns[5],
            file_id: ns[6],
            expanded_file_id: ns[7],
            region_kind,
        },
    )
}

/// The element decoder of an array of branches, as a function value.
pub open spec fn branch_elem_fn() -> spec_fn(Json) -> Result<Branch, DecodeError> {
    |j: Json| spec_decode_branch(j)
}

/// The decode of an array of branches, in order, first error first.
pub open spec fn spec_decode_branches(s: Seq<Json>) -> Result<Seq<Branch>, DecodeError> {
    decode_elems(s, branch_elem_fn())
}

/// Decodes every element of an array as a branch.
pub(crate) fn decode_branches(arr: &Vec<serde_json::Value>) -> (r: Result<Vec<Branch>, DecodeError>)
    ensures
        match r {
            Ok(bs) => spec_decode_branches(jviews(arr@)) == Ok::<Seq<Branch>, DecodeError>(bs@),
            Err(e) => spec_decode_branches(jviews(arr@)) == Err::<Seq<Branch>, DecodeError>(e),
        },
{
    let ghost s = jviews(arr@);
    let mut bs: Vec<Branch> = Vec::new();
    let mut i: usize = 0;
    while i < arr.len()
        invariant
            s == jviews(arr@),
            i <= arr@.len(),
            decode_elems(s.take(i as int), branch_elem_fn()) == Ok::<Seq<Branch>, DecodeError>(
                bs@,
            ),
        decreases arr@.len() - i,
    {
        proof {
            assert(s.take(i + 1).drop_last() =~= s.take(i as int));
            assert(s[i as int] == jview(arr@[i as int]));
        }
        match decode_branch(&arr[i]) {
            Ok(b) => {
                let ghost pre = bs@;
                bs.push(b);
                proof {
                    assert(bs@ =~= pre.push(b));
                }
            },
            Err(e) => {
                proof {
                    lemma_decode_elems_prefix_err(s, branch_elem_fn(), i + 1);
                }
                return Err(e);
            },
        }
        i = i + 1;
    }
    proof {
        assert(s.take(arr@.len() as int) =~= s);
    }
    Ok(bs)
}

} // verus!
