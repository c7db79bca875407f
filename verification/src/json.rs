use vstd::prelude::*;

use crate::errors::DecodeError;
use crate::input::{jview, jviews, val_as_array, val_as_bool, val_as_string, val_as_u64, val_get, val_num_bits};

verus! {

/// A JSON document at the mathematical level. This is the model against
/// which every decoder is specified.
///
/// A number carries two aspects: `integer` is `Some(u)` exactly when the
/// parser read the token as a non-negative integer representable in 64 bits,
/// and `bits` is the IEEE 754 double encoding of the number's value. An
/// object is a map from field name to value; the parser keeps the last value
/// of a repeated key, so a map loses nothing the decoder could see.
pub enum Json {
    Null,
    Bool(bool),
    Num { integer: Option<u64>, bits: u64 },
    Str(Seq<char>),
    Arr(Seq<Json>),
    Obj(Map<Seq<char>, Json>),
}

/// A required object field holding a non-negative 64-bit integer.
pub open spec fn field_u64(m: Map<Seq<char>, Json>, name: Seq<char>) -> Result<u64, DecodeError> {
    if !m.contains_key(name) {
        Err(DecodeError::MissingField)
    } else {
        match m[name] {
            Json::Num { integer, .. } => match integer {
                Some(u) => Ok(u),
                None => Err(DecodeError::TypeMismatch),
            },
            _ => Err(DecodeError::TypeMismatch),
        }
    }
}

/// A required object field holding a boolean.
pub open spec fn field_bool(m: Map<Seq<char>, Json>, name: Seq<char>) -> Result<bool, DecodeError> {
    if !m.contains_key(name) {
        Err(DecodeError::MissingField)
    } else {
        match m[name] {
            Json::Bool(b) => Ok(b),
            _ => Err(DecodeError::TypeMismatch),
        }
    }
}

/// A required object field holding a string.
pub open spec fn field_str(m: Map<Seq<char>, Json>, name: Seq<char>) -> Result<
    Seq<char>,
    DecodeError,
> {
    if !m.contains_key(name) {
        Err(DecodeError::MissingField)
    } else {
        match m[name] {
            Json::Str(s) => Ok(s),
            _ => Err(DecodeError::TypeMismatch),
        }
    }
}

/// A required object field holding a number of any shape; the result is the
/// number's IEEE 754 double encoding, taken verbatim.
pub open spec fn field_bits(m: Map<Seq<char>, Json>, name: Seq<char>) -> Result<u64, DecodeError> {
    if !m.contains_key(name) {
        Err(DecodeError::MissingField)
    } else {
        match m[name] {
            Json::Num { bits, .. } => Ok(bits),
            _ => Err(DecodeError::TypeMismatch),
        }
    }
}

/// A required object field holding an array.
pub open spec fn field_arr(m: Map<Seq<char>, Json>, name: Seq<char>) -> Result<
    Seq<Json>,
    DecodeError,
> {
    if !m.contains_key(name) {
        Err(DecodeError::MissingField)
    } else {
        match m[name] {
            Json::Arr(s) => Ok(s),
            _ => Err(DecodeError::TypeMismatch),
        }
    }
}

/// Decodes every element of an array with `f`, left to right, keeping the
/// results in order. The error of the leftmost failing element is the error
/// of the whole array.
pub open spec fn decode_elems<T>(
    s: Seq<Json>,
    f: spec_fn(Json) -> Result<T, DecodeError>,
) -> Result<Seq<T>, DecodeError>
    decreases s.len(),
{
    if s.len() == 0 {
        Ok(Seq::empty())
    } else {
        match decode_elems(s.drop_last(), f) {
            Ok(pre) => match f(s.last()) {
                Ok(t) => Ok(pre.push(t)),
                Err(e) => Err(e),
            },
            Err(e) => Err(e),
        }
    }
}

/// A successful element-wise decode keeps the array's length.
pub proof fn lemma_decode_elems_len<T>(s: Seq<Json>, f: spec_fn(Json) -> Result<T, DecodeError>)
    ensures
        decode_elems(s, f) matches Ok(ts) ==> ts.len() == s.len(),
    decreases s.len(),
{
    if s.len() > 0 {
        lemma_decode_elems_len(s.drop_last(), f);
    }
}

/// Reads a required non-negative 64-bit integer field of an object.
pub(crate) fn get_field_u64(v: &serde_json::Value, name: &str) -> (r: Result<u64, DecodeError>)
    requires
        jview(*v) is Obj,
    ensures
        r == field_u64(jview(*v)->Obj_0, name@),
{
    match val_get(v, name) {
        None => Err(DecodeError::MissingField),
        Some(f) => match val_as_u64(f) {
            Some(u) => Ok(u),
            None => Err(DecodeError::TypeMismatch),
        },
    }
}

/// Reads a required number field of an object, as its double encoding.
pub(crate) fn get_field_bits(v: &serde_json::Value, name: &str) -> (r: Result<u64, DecodeError>)
    requires
        jview(*v) is Obj,
    ensures
        r == field_bits(jview(*v)->Obj_0, name@),
{
    match val_get(v, name) {
        None => Err(DecodeError::MissingField),
        Some(f) => match val_num_bits(f) {
            Some(b) => Ok(b),
            None => Err(DecodeError::TypeMismatch),
        },
    }
}

/// Reads a required boolean field of an object.
pub(crate) fn get_field_bool(v: &serde_json::Value, name: &str) -> (r: Result<bool, DecodeError>)
    requires
        jview(*v) is Obj,
    ensures
        r == field_bool(jview(*v)->Obj_0, name@),
{
    match val_get(v, name) {
        None => Err(DecodeError::MissingField),
        Some(f) => match val_as_bool(f) {
            Some(b) => Ok(b),
            None => Err(DecodeError::TypeMismatch),
        },
    }
}

/// Reads a required string field of an object, copying the characters.
pub(crate) fn get_field_string(v: &serde_json::Value, name: &str) -> (r: Result<
    String,
    DecodeError,
>)
    requires
        jview(*v) is Obj,
    ensures
        match r {
            Ok(s) => field_str(jview(*v)->Obj_0, name@) == Ok::<Seq<char>, DecodeError>(s@),
            Err(e) => field_str(jview(*v)->Obj_0, name@) == Err::<Seq<char>, DecodeError>(e),
        },
{
    match val_get(v, name) {
        None => Err(DecodeError::MissingField),
        Some(f) => match val_as_string(f) {
            Some(s) => Ok(s),
            None => Err(DecodeError::TypeMismatch),
        },
    }
}

/// Reads a required array field of an object, handing back its elements.
pub(crate) fn get_field_array<'a>(v: &'a serde_json::Value, name: &str) -> (r: Result<
    &'a Vec<serde_json::Value>,
    DecodeError,
>)
    requires
        jview(*v) is Obj,
    ensures
        match r {
            Ok(a) => field_arr(jview(*v)->Obj_0, name@) == Ok::<Seq<Json>, DecodeError>(
                jviews(a@),
            ),
            Err(e) => field_arr(jview(*v)->Obj_0, name@) == Err::<Seq<Json>, DecodeError>(e),
        },
{
    match val_get(v, name) {
        None => Err(DecodeError::MissingField),
        Some(f) => match val_as_array(f) {
            Some(a) => {
                proof {
                    assert(jviews(a@) =~= jview(*f)->Arr_0);
                }
                Ok(a)
            },
            None => Err(DecodeError::TypeMismatch),
        },
    }
}

/// A filename element must be a string.
pub open spec fn spec_elem_str(j: Json) -> Result<Seq<char>, DecodeError> {
    match j {
        Json::Str(s) => Ok(s),
        _ => Err(DecodeError::TypeMismatch),
    }
}

/// The element decoder of an array of strings, as a function value.
pub open spec fn str_elem_fn() -> spec_fn(Json) -> Result<Seq<char>, DecodeError> {
    |j: Json| spec_elem_str(j)
}

/// The decode of an array of strings, in order, first error first.
pub open spec fn spec_decode_strings(s: Seq<Json>) -> Result<Seq<Seq<char>>, DecodeError> {
    decode_elems(s, str_elem_fn())
}

/// Reads every element of an array as a string, copying the characters.
pub(crate) fn decode_string_elems(arr: &Vec<serde_json::Value>) -> (r: Result<
    Vec<String>,
    DecodeError,
>)
    ensures
        match r {
            Ok(ss) => spec_decode_strings(jviews(arr@)) == Ok::<
                Seq<Seq<char>>,
                DecodeError,
            >(ss@.map_values(|x: String| x@)),
            Err(e) => spec_decode_strings(jviews(arr@)) == Err::<
                Seq<Seq<char>>,
                DecodeError,
            >(e),
        },
{
    let ghost s = jviews(arr@);
    let mut ss: Vec<String> = Vec::new();
    proof {
        assert(ss@.map_values(|x: String| x@) =~= Seq::<Seq<char>>::empty());
    }
    let mut i: usize = 0;
    while i < arr.len()
        invariant
            s == jviews(arr@),
            i <= arr@.len(),
            decode_elems(s.take(i as int), str_elem_fn()) == Ok::<Seq<Seq<char>>, DecodeError>(
                ss@.map_values(|x: String| x@),
            ),
        decreases arr@.len() - i,
    {
        proof {
            assert(s.take(i + 1).drop_last() =~= s.take(i as int));
            assert(s[i as int] == jview(arr@[i as int]));
        }
        match val_as_string(&arr[i]) {
            Some(st) => {
                let ghost pre = ss@;
                ss.push(st);
                proof {
                    assert(ss@ =~= pre.push(st));
                    assert(ss@.map_values(|x: String| x@) =~= pre.map_values(
                        |x: String| x@,
                    ).push(st@));
                }
            },
            None => {
                proof {
                    lemma_decode_elems_prefix_err(s, str_elem_fn(), i + 1);
                }
                return Err(DecodeError::TypeMismatch);
            },
        }
        i = i + 1;
    }
    proof {
        assert(s.take(arr@.len() as int) =~= s);
    }
    Ok(ss)
}

/// Once a prefix fails, the whole array fails with that prefix's error.
pub proof fn lemma_decode_elems_prefix_err<T>(
    s: Seq<Json>,
    f: spec_fn(Json) -> Result<T, DecodeError>,
    i: int,
)
    requires
        0 <= i <= s.len(),
        decode_elems(s.take(i), f) is Err,
    ensures
        decode_elems(s, f) == decode_elems(s.take(i), f),
    decreases s.len(),
{
    if i == s.len() {
        assert(s.take(i) =~= s);
    } else {
        assert(s.drop_last().take(i) =~= s.take(i));
        lemma_decode_elems_prefix_err(s.drop_last(), f, i);
    }
}

} // verus!
