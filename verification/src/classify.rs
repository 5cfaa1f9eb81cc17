//! From a value of unknown type to a handle.
//!
//! The host is asked, kind after kind in the order of [`ElementKind`],
//! whether the value is a typed array of that kind. The first kind to which
//! it says yes decides; after nine times no, the value is no typed array and
//! goes back to the caller as it came.
//!
//! What the host says is not known before it is asked, and it may say
//! otherwise when asked again. So the contracts here speak of the answers
//! that were given: [`type_answer`] and [`cast_answer`] hold of an answer
//! that the host gave to that question.

use crate::error::TryFromJsValueError;
use crate::handle::TypedArray;
use crate::host::{
    cast_float32_array, cast_float64_array, cast_int16_array, cast_int32_array, cast_int8_array,
    cast_uint16_array, cast_uint32_array, cast_uint8_array, cast_uint8_clamped_array,
    is_float32_array, is_float64_array, is_int16_array, is_int32_array, is_int8_array,
    is_uint16_array, is_uint32_array, is_uint8_array, is_uint8_clamped_array,
};
use crate::kind::ElementKind;
use js_sys::{
    Float32Array, Float64Array, Int16Array, Int32Array, Int8Array, Uint16Array, Uint32Array,
    Uint8Array, Uint8ClampedArray,
};
use vstd::prelude::*;
use vstd::std_specs::convert::TryFromSpecImpl;
use wasm_bindgen::JsValue;

verus! {

/// Holds where the host, asked whether `v` is a typed array of `kind`, gave
/// the answer `hit`.
pub closed spec fn type_answer(kind: ElementKind, v: JsValue, hit: bool) -> bool {
    match kind {
        ElementKind::Int8 => call_ensures(is_int8_array, (&v,), hit),
        ElementKind::Uint8 => call_ensures(is_uint8_array, (&v,), hit),
        ElementKind::Uint8Clamped => call_ensures(is_uint8_clamped_array, (&v,), hit),
        ElementKind::Int16 => call_ensures(is_int16_array, (&v,), hit),
        ElementKind::Uint16 => call_ensures(is_uint16_array, (&v,), hit),
        ElementKind::Int32 => call_ensures(is_int32_array, (&v,), hit),
        ElementKind::Uint32 => call_ensures(is_uint32_array, (&v,), hit),
        ElementKind::Float32 => call_ensures(is_float32_array, (&v,), hit),
        ElementKind::Float64 => call_ensures(is_float64_array, (&v,), hit),
    }
}

/// Holds where the host, asked to turn `v` into a typed array of `kind`, gave
/// `r`: the handle of the array that it made of `v`, or a value in place of
/// the array.
pub closed spec fn cast_answer(
    kind: ElementKind,
    v: JsValue,
    r: Result<TypedArray, JsValue>,
) -> bool {
    match kind {
        ElementKind::Int8 => match r {
            Ok(TypedArray::Int8Array(a)) => call_ensures(
                cast_int8_array,
                (v,),
                Ok::<Int8Array, JsValue>(a),
            ),
            Ok(_) => false,
            Err(e) => call_ensures(cast_int8_array, (v,), Err::<Int8Array, JsValue>(e)),
        },
        ElementKind::Uint8 => match r {
            Ok(TypedArray::Uint8Array(a)) => call_ensures(
                cast_uint8_array,
                (v,),
                Ok::<Uint8Array, JsValue>(a),
            ),
            Ok(_) => false,
            Err(e) => call_ensures(cast_uint8_array, (v,), Err::<Uint8Array, JsValue>(e)),
        },
        ElementKind::Uint8Clamped => match r {
            Ok(TypedArray::Uint8ClampedArray(a)) => call_ensures(
                cast_uint8_clamped_array,
                (v,),
                Ok::<Uint8ClampedArray, JsValue>(a),
            ),
            Ok(_) => false,
            Err(e) => call_ensures(
                cast_uint8_clamped_array,
                (v,),
                Err::<Uint8ClampedArray, JsValue>(e),
            ),
        },
        ElementKind::Int16 => match r {
            Ok(TypedArray::Int16Array(a)) => call_ensures(
                cast_int16_array,
                (v,),
                Ok::<Int16Array, JsValue>(a),
            ),
            Ok(_) => false,
            Err(e) => call_ensures(cast_int16_array, (v,), Err::<Int16Array, JsValue>(e)),
        },
        ElementKind::Uint16 => match r {
            Ok(TypedArray::Uint16Array(a)) => call_ensures(
                cast_uint16_array,
                (v,),
                Ok::<Uint16Array, JsValue>(a),
            ),
            Ok(_) => false,
            Err(e) => call_ensures(cast_uint16_array, (v,), Err::<Uint16Array, JsValue>(e)),
        },
        ElementKind::Int32 => match r {
            Ok(TypedArray::Int32Array(a)) => call_ensures(
                cast_int32_array,
                (v,),
                Ok::<Int32Array, JsValue>(a),
            ),
            Ok(_) => false,
            Err(e) => call_ensures(cast_int32_array, (v,), Err::<Int32Array, JsValue>(e)),
        },
        ElementKind::Uint32 => match r {
            Ok(TypedArray::Uint32Array(a)) => call_ensures(
                cast_uint32_array,
                (v,),
                Ok::<Uint32Array, JsValue>(a),
            ),
            Ok(_) => false,
            Err(e) => call_ensures(cast_uint32_array, (v,), Err::<Uint32Array, JsValue>(e)),
        },
        ElementKind::Float32 => match r {
            Ok(TypedArray::Float32Array(a)) => call_ensures(
                cast_float32_array,
                (v,),
                Ok::<Float32Array, JsValue>(a),
            ),
            Ok(_) => false,
            Err(e) => call_ensures(cast_float32_array, (v,), Err::<Float32Array, JsValue>(e)),
        },
        ElementKind::Float64 => match r {
            Ok(TypedArray::Float64Array(a)) => call_ensures(
                cast_float64_array,
                (v,),
                Ok::<Float64Array, JsValue>(a),
            ),
            Ok(_) => false,
            Err(e) => call_ensures(cast_float64_array, (v,), Err::<Float64Array, JsValue>(e)),
        },
    }
}

/// An answer to a cast is either a handle of the kind that was asked for,
/// which seen as a value is the value that was given, or that value itself.
/// And the cast goes by the type test: where the host made an array of `v`,
/// it had said yes to the test of `v` for that kind, and where it gave `v`
/// back, it had said no.
pub proof fn lemma_cast_answer(kind: ElementKind, v: JsValue, r: Result<TypedArray, JsValue>)
    requires
        cast_answer(kind, v, r),
    ensures
        r matches Ok(t) ==> t.kind() == kind && t.value() == v,
        r matches Err(e) ==> e == v,
        type_answer(kind, v, r is Ok),
{
}

/// Asks the host whether `v` is a typed array of `kind`.
fn ask_type(v: &JsValue, kind: ElementKind) -> (hit: bool)
    ensures
        type_answer(kind, *v, hit),
{
    match kind {
        ElementKind::Int8 => is_int8_array(v),
        ElementKind::Uint8 => is_uint8_array(v),
        ElementKind::Uint8Clamped => is_uint8_clamped_array(v),
        ElementKind::Int16 => is_int16_array(v),
        ElementKind::Uint16 => is_uint16_array(v),
        ElementKind::Int32 => is_int32_array(v),
        ElementKind::Uint32 => is_uint32_array(v),
        ElementKind::Float32 => is_float32_array(v),
        ElementKind::Float64 => is_float64_array(v),
    }
}

/// Asks the host to turn `v` into a typed array of `kind`, and makes a handle
/// of the array.
pub(crate) fn ask_cast(v: JsValue, kind: ElementKind) -> (r: Result<TypedArray, JsValue>)
    ensures
        cast_answer(kind, v, r),
        r matches Ok(t) ==> t.kind() == kind && t.value() == v,
        r matches Err(e) ==> e == v,
{
    match kind {
        ElementKind::Int8 => match cast_int8_array(v) {
            Ok(a) => Ok(TypedArray::from(a)),
            Err(e) => Err(e),
        },
        ElementKind::Uint8 => match cast_uint8_array(v) {
            Ok(a) => Ok(TypedArray::from(a)),
            Err(e) => Err(e),
        },
        ElementKind::Uint8Clamped => match cast_uint8_clamped_array(v) {
            Ok(a) => Ok(TypedArray::from(a)),
            Err(e) => Err(e),
        },
        ElementKind::Int16 => match cast_int16_array(v) {
            Ok(a) => Ok(TypedArray::from(a)),
            Err(e) => Err(e),
        },
        ElementKind::Uint16 => match cast_uint16_array(v) {
            Ok(a) => Ok(TypedArray::from(a)),
            Err(e) => Err(e),
        },
        ElementKind::Int32 => match cast_int32_array(v) {
            Ok(a) => Ok(TypedArray::from(a)),
            Err(e) => Err(e),
        },
        ElementKind::Uint32 => match cast_uint32_array(v) {
            Ok(a) => Ok(TypedArray::from(a)),
            Err(e) => Err(e),
        },
        ElementKind::Float32 => match cast_float32_array(v) {
            Ok(a) => Ok(TypedArray::from(a)),
            Err(e) => Err(e),
        },
        ElementKind::Float64 => match cast_float64_array(v) {
            Ok(a) => Ok(TypedArray::from(a)),
            Err(e) => Err(e),
        },
    }
}

impl TypedArray {
    /// What the type test of `v` comes to, given the answers of the host.
    /// It is `false` where the host said no to each of the nine kinds, and
    /// `true` where it said yes to one kind after it had said no to each
    /// kind before that one.
    pub open spec fn tested(v: JsValue, hit: bool) -> bool {
        if hit {
            exists|k: ElementKind|
                {
                    &&& #[trigger] type_answer(k, v, true)
                    &&& forall|j: ElementKind|
                        j.rank() < k.rank() ==> #[trigger] type_answer(j, v, false)
                }
        } else {
            forall|k: ElementKind| #[trigger] type_answer(k, v, false)
        }
    }

    /// What the classification of `v` comes to, given the answers of the
    /// host. It is `v` itself where the host gave `v` back for each of the
    /// nine kinds. It is a handle where the host made an array of the
    /// handle's kind of `v`, after it had given `v` back for each kind before
    /// that one; seen as a value, the handle is `v`.
    pub open spec fn classified(v: JsValue, r: Result<TypedArray, JsValue>) -> bool {
        match r {
            Ok(t) => {
                &&& cast_answer(t.kind(), v, r)
                &&& t.value() == v
                &&& forall|j: ElementKind|
                    j.rank() < t.kind().rank() ==> #[trigger] cast_answer(
                        j,
                        v,
                        Err::<TypedArray, JsValue>(v),
                    )
            },
            Err(e) => {
                &&& e == v
                &&& forall|k: ElementKind| #[trigger]
                    cast_answer(k, v, Err::<TypedArray, JsValue>(v))
            },
        }
    }

    /// The type test says of a value what its classification comes to: the
    /// answers of the host on which the classification gave a handle make
    /// the test `true`, and those on which it gave the value back make the
    /// test `false`.
    pub proof fn lemma_tested_as_classified(v: JsValue, r: Result<TypedArray, JsValue>)
        requires
            Self::classified(v, r),
        ensures
            Self::tested(v, r is Ok),
    {
        match r {
            Ok(t) => {
                lemma_cast_answer(t.kind(), v, r);
                assert forall|j: ElementKind| j.rank() < t.kind().rank() implies #[trigger]
                    type_answer(j, v, false) by {
                    lemma_cast_answer(j, v, Err::<TypedArray, JsValue>(v));
                }
            },
            Err(_) => {
                assert forall|k: ElementKind| #[trigger] type_answer(k, v, false) by {
                    lemma_cast_answer(k, v, Err::<TypedArray, JsValue>(v));
                }
            },
        }
    }

    /// Tests whether the value is a typed array of any kind.
    pub fn has_type(i: JsValue) -> (hit: bool)
        ensures
            Self::tested(i, hit),
    {
        let mut kind = ElementKind::first();
        loop
            invariant
                forall|j: ElementKind|
                    j.rank() < kind.rank() ==> #[trigger] type_answer(j, i, false),
            decreases 8 - kind.rank(),
        {
            if ask_type(&i, kind) {
                return true;
            }
            match kind.next() {
                Some(n) => {
                    kind = n;
                },
                None => {
                    return false;
                },
            }
        }
    }

    /// The handle of the value, if the value is a typed array, and else the
    /// value itself.
    pub fn dyn_into(i: JsValue) -> (r: Result<Self, JsValue>)
        ensures
            Self::classified(i, r),
    {
        let mut value = i;
        let mut kind = ElementKind::first();
        loop
            invariant
                value == i,
                forall|j: ElementKind|
                    j.rank() < kind.rank() ==> #[trigger] cast_answer(
                        j,
                        i,
                        Err::<TypedArray, JsValue>(i),
                    ),
            decreases 8 - kind.rank(),
        {
            match ask_cast(value, kind) {
                Ok(t) => {
                    return Ok(t);
                },
                Err(back) => {
                    value = back;
                },
            }
            match kind.next() {
                Some(n) => {
                    kind = n;
                },
                None => {
                    return Err(value);
                },
            }
        }
    }
}

impl TryFrom<JsValue> for TypedArray {
    type Error = TryFromJsValueError;

    /// The handle of the value, if the value is a typed array. A value that
    /// is none is dropped, and the error says so.
    fn try_from(i: JsValue) -> (r: Result<Self, Self::Error>)
        ensures
            match r {
                Ok(t) => TypedArray::classified(i, Ok(t)),
                Err(e) => e == TryFromJsValueError && TypedArray::classified(i, Err(i)),
            },
    {
        match TypedArray::dyn_into(i) {
            Ok(t) => Ok(t),
            Err(_) => Err(TryFromJsValueError),
        }
    }
}

impl TryFromSpecImpl<JsValue> for TypedArray {
    /// The outcome is the host's to decide, so it is no function of the
    /// value: the contract of `try_from` says what holds of it.
    open spec fn obeys_try_from_spec() -> bool {
        false
    }

    open spec fn try_from_spec(i: JsValue) -> Result<Self, Self::Error> {
        arbitrary()
    }
}

} // verus!
