//! The handle: one of the nine typed arrays, and the operations that all of
//! them share.
//!
//! A getter finds out which array the handle holds and makes the same call
//! on it. Its contract says so: the result is what that call, made on the
//! array inside, handed back. A second call may be answered otherwise, since
//! the host may have changed in between.
//!
//! `subarray`, `slice` and `set` can fail in the host, which then throws.
//! They call the host's method by its name, in the way that hands a thrown
//! value back, and return it as an error.

use crate::host::{
    float32_array_as_object, float32_array_as_value, float32_array_object, float32_array_value,
    float64_array_as_object, float64_array_as_value, float64_array_object, float64_array_value,
    int16_array_as_object, int16_array_as_value, int16_array_object, int16_array_value,
    int32_array_as_object, int32_array_as_value, int32_array_object, int32_array_value,
    int8_array_as_object, int8_array_as_value, int8_array_object, int8_array_value,
    uint16_array_as_object, uint16_array_as_value, uint16_array_object, uint16_array_value,
    uint32_array_as_object, uint32_array_as_value, uint32_array_object, uint32_array_value,
    uint8_array_as_object, uint8_array_as_value, uint8_array_object, uint8_array_value,
    uint8_clamped_array_as_object, uint8_clamped_array_as_value, uint8_clamped_array_object,
    uint8_clamped_array_value,
};
use crate::classify::{ask_cast, cast_answer};
use crate::error::HostError;
use crate::invoke::{invoke, invoked, number_made};
use crate::kind::ElementKind;
use js_sys::{
    ArrayBuffer, Float32Array, Float64Array, Int16Array, Int32Array, Int8Array, Object,
    Uint16Array, Uint32Array, Uint8Array, Uint8ClampedArray,
};
use vstd::prelude::*;
use vstd::std_specs::convert::FromSpec;
use wasm_bindgen::JsValue;

verus! {

/// Any one of the nine typed arrays. The variant is the element kind; the
/// array inside is a reference to the host's array, not a copy of it.
#[derive(Debug)]
pub enum TypedArray {
    /// Elements of kind [`ElementKind::Int8`].
    Int8Array(Int8Array),
    /// Elements of kind [`ElementKind::Uint8`].
    Uint8Array(Uint8Array),
    /// Elements of kind [`ElementKind::Uint8Clamped`].
    Uint8ClampedArray(Uint8ClampedArray),
    /// Elements of kind [`ElementKind::Int16`].
    Int16Array(Int16Array),
    /// Elements of kind [`ElementKind::Uint16`].
    Uint16Array(Uint16Array),
    /// Elements of kind [`ElementKind::Int32`].
    Int32Array(Int32Array),
    /// Elements of kind [`ElementKind::Uint32`].
    Uint32Array(Uint32Array),
    /// Elements of kind [`ElementKind::Float32`].
    Float32Array(Float32Array),
    /// Elements of kind [`ElementKind::Float64`].
    Float64Array(Float64Array),
}

impl TypedArray {
    /// The element kind of the array that the handle holds.
    pub open spec fn spec_kind(&self) -> ElementKind {
        match self {
            TypedArray::Int8Array(_) => ElementKind::Int8,
            TypedArray::Uint8Array(_) => ElementKind::Uint8,
            TypedArray::Uint8ClampedArray(_) => ElementKind::Uint8Clamped,
            TypedArray::Int16Array(_) => ElementKind::Int16,
            TypedArray::Uint16Array(_) => ElementKind::Uint16,
            TypedArray::Int32Array(_) => ElementKind::Int32,
            TypedArray::Uint32Array(_) => ElementKind::Uint32,
            TypedArray::Float32Array(_) => ElementKind::Float32,
            TypedArray::Float64Array(_) => ElementKind::Float64,
        }
    }

    /// The handle seen as a value of the host: the value that the array
    /// inside is a view of.
    pub open spec fn value(&self) -> JsValue {
        match self {
            TypedArray::Int8Array(a) => int8_array_value(*a),
            TypedArray::Uint8Array(a) => uint8_array_value(*a),
            TypedArray::Uint8ClampedArray(a) => uint8_clamped_array_value(*a),
            TypedArray::Int16Array(a) => int16_array_value(*a),
            TypedArray::Uint16Array(a) => uint16_array_value(*a),
            TypedArray::Int32Array(a) => int32_array_value(*a),
            TypedArray::Uint32Array(a) => uint32_array_value(*a),
            TypedArray::Float32Array(a) => float32_array_value(*a),
            TypedArray::Float64Array(a) => float64_array_value(*a),
        }
    }

    /// The handle seen as an object of the host.
    pub open spec fn object(&self) -> Object {
        match self {
            TypedArray::Int8Array(a) => int8_array_object(*a),
            TypedArray::Uint8Array(a) => uint8_array_object(*a),
            TypedArray::Uint8ClampedArray(a) => uint8_clamped_array_object(*a),
            TypedArray::Int16Array(a) => int16_array_object(*a),
            TypedArray::Uint16Array(a) => uint16_array_object(*a),
            TypedArray::Int32Array(a) => int32_array_object(*a),
            TypedArray::Uint32Array(a) => uint32_array_object(*a),
            TypedArray::Float32Array(a) => float32_array_object(*a),
            TypedArray::Float64Array(a) => float64_array_object(*a),
        }
    }

    /// Holds where `b` is what `buffer`, called on the array inside, handed back.
    pub open spec fn host_buffer(&self, b: ArrayBuffer) -> bool {
        match self {
            TypedArray::Int8Array(a) => call_ensures(Int8Array::buffer, (a,), b),
            TypedArray::Uint8Array(a) => call_ensures(Uint8Array::buffer, (a,), b),
            TypedArray::Uint8ClampedArray(a) => call_ensures(Uint8ClampedArray::buffer, (a,), b),
            TypedArray::Int16Array(a) => call_ensures(Int16Array::buffer, (a,), b),
            TypedArray::Uint16Array(a) => call_ensures(Uint16Array::buffer, (a,), b),
            TypedArray::Int32Array(a) => call_ensures(Int32Array::buffer, (a,), b),
            TypedArray::Uint32Array(a) => call_ensures(Uint32Array::buffer, (a,), b),
            TypedArray::Float32Array(a) => call_ensures(Float32Array::buffer, (a,), b),
            TypedArray::Float64Array(a) => call_ensures(Float64Array::buffer, (a,), b),
        }
    }

    /// Holds where `n` is what `length`, called on the array inside, handed back.
    pub open spec fn host_length(&self, n: u32) -> bool {
        match self {
            TypedArray::Int8Array(a) => call_ensures(Int8Array::length, (a,), n),
            TypedArray::Uint8Array(a) => call_ensures(Uint8Array::length, (a,), n),
            TypedArray::Uint8ClampedArray(a) => call_ensures(Uint8ClampedArray::length, (a,), n),
            TypedArray::Int16Array(a) => call_ensures(Int16Array::length, (a,), n),
            TypedArray::Uint16Array(a) => call_ensures(Uint16Array::length, (a,), n),
            TypedArray::Int32Array(a) => call_ensures(Int32Array::length, (a,), n),
            TypedArray::Uint32Array(a) => call_ensures(Uint32Array::length, (a,), n),
            TypedArray::Float32Array(a) => call_ensures(Float32Array::length, (a,), n),
            TypedArray::Float64Array(a) => call_ensures(Float64Array::length, (a,), n),
        }
    }

    /// Holds where `n` is what `byte_length`, called on the array inside, handed
    /// back.
    pub open spec fn host_byte_length(&self, n: u32) -> bool {
        match self {
            TypedArray::Int8Array(a) => call_ensures(Int8Array::byte_length, (a,), n),
            TypedArray::Uint8Array(a) => call_ensures(Uint8Array::byte_length, (a,), n),
            TypedArray::Uint8ClampedArray(a) => call_ensures(
                Uint8ClampedArray::byte_length,
                (a,),
                n,
            ),
            TypedArray::Int16Array(a) => call_ensures(Int16Array::byte_length, (a,), n),
            TypedArray::Uint16Array(a) => call_ensures(Uint16Array::byte_length, (a,), n),
            TypedArray::Int32Array(a) => call_ensures(Int32Array::byte_length, (a,), n),
            TypedArray::Uint32Array(a) => call_ensures(Uint32Array::byte_length, (a,), n),
            TypedArray::Float32Array(a) => call_ensures(Float32Array::byte_length, (a,), n),
            TypedArray::Float64Array(a) => call_ensures(Float64Array::byte_length, (a,), n),
        }
    }

    /// Holds where `n` is what `byte_offset`, called on the array inside, handed
    /// back.
    pub open spec fn host_byte_offset(&self, n: u32) -> bool {
        match self {
            TypedArray::Int8Array(a) => call_ensures(Int8Array::byte_offset, (a,), n),
            TypedArray::Uint8Array(a) => call_ensures(Uint8Array::byte_offset, (a,), n),
            TypedArray::Uint8ClampedArray(a) => call_ensures(
                Uint8ClampedArray::byte_offset,
                (a,),
                n,
            ),
            TypedArray::Int16Array(a) => call_ensures(Int16Array::byte_offset, (a,), n),
            TypedArray::Uint16Array(a) => call_ensures(Uint16Array::byte_offset, (a,), n),
            TypedArray::Int32Array(a) => call_ensures(Int32Array::byte_offset, (a,), n),
            TypedArray::Uint32Array(a) => call_ensures(Uint32Array::byte_offset, (a,), n),
            TypedArray::Float32Array(a) => call_ensures(Float32Array::byte_offset, (a,), n),
            TypedArray::Float64Array(a) => call_ensures(Float64Array::byte_offset, (a,), n),
        }
    }

    /// Holds where `r` is what came of calling the method `name` of the array
    /// with the numbers `begin` and `end`. Where the host threw, `r` is the
    /// thrown value. Where the method returned, the host was asked to turn
    /// the result into an array of this handle's kind: `r` is the handle of
    /// that array, or the result itself where the host said that it is none.
    pub open spec fn host_range(&self, name: &str, begin: u32, end: u32, r: Result<
        TypedArray,
        HostError,
    >) -> bool {
        exists|from: JsValue, to: JsValue, out: Result<JsValue, HostError>|
            {
                &&& number_made(begin, from)
                &&& number_made(end, to)
                &&& #[trigger] invoked(self.value(), name, from, to, out)
                &&& match out {
                    Err(e) => r == Err::<TypedArray, HostError>(e),
                    Ok(v) => match r {
                        Ok(t) => cast_answer(self.kind(), v, Ok(t)),
                        Err(HostError::Unexpected(back)) => cast_answer(self.kind(), v, Err(back)),
                        Err(_) => false,
                    },
                }
            }
    }

    /// Holds where `r` is what came of `subarray` with `begin` and `end`.
    pub open spec fn host_subarray(&self, begin: u32, end: u32, r: Result<
        TypedArray,
        HostError,
    >) -> bool {
        self.host_range("subarray", begin, end, r)
    }

    /// Holds where `r` is what came of `slice` with `begin` and `end`.
    pub open spec fn host_slice(&self, begin: u32, end: u32, r: Result<
        TypedArray,
        HostError,
    >) -> bool {
        self.host_range("slice", begin, end, r)
    }

    /// Holds where `r` is what came of calling the method `set` of the array
    /// with `src` and the number `offset`: nothing where the method
    /// returned, and the thrown value where the host threw.
    pub open spec fn host_set(&self, src: JsValue, offset: u32, r: Result<(), HostError>) -> bool {
        exists|at: JsValue, out: Result<JsValue, HostError>|
            {
                &&& number_made(offset, at)
                &&& #[trigger] invoked(self.value(), "set", src, at, out)
                &&& match out {
                    Err(e) => r == Err::<(), HostError>(e),
                    Ok(_) => r == Ok::<(), HostError>(()),
                }
            }
    }

    /// Holds where `r` has the kind of this handle and holds what `clone`, called
    /// on the array inside, handed back.
    pub open spec fn host_clone(&self, r: TypedArray) -> bool {
        match self {
            TypedArray::Int8Array(a) => {
                &&& r matches TypedArray::Int8Array(b)
                &&& call_ensures(Int8Array::clone, (a,), b)
            },
            TypedArray::Uint8Array(a) => {
                &&& r matches TypedArray::Uint8Array(b)
                &&& call_ensures(Uint8Array::clone, (a,), b)
            },
            TypedArray::Uint8ClampedArray(a) => {
                &&& r matches TypedArray::Uint8ClampedArray(b)
                &&& call_ensures(Uint8ClampedArray::clone, (a,), b)
            },
            TypedArray::Int16Array(a) => {
                &&& r matches TypedArray::Int16Array(b)
                &&& call_ensures(Int16Array::clone, (a,), b)
            },
            TypedArray::Uint16Array(a) => {
                &&& r matches TypedArray::Uint16Array(b)
                &&& call_ensures(Uint16Array::clone, (a,), b)
            },
            TypedArray::Int32Array(a) => {
                &&& r matches TypedArray::Int32Array(b)
                &&& call_ensures(Int32Array::clone, (a,), b)
            },
            TypedArray::Uint32Array(a) => {
                &&& r matches TypedArray::Uint32Array(b)
                &&& call_ensures(Uint32Array::clone, (a,), b)
            },
            TypedArray::Float32Array(a) => {
                &&& r matches TypedArray::Float32Array(b)
                &&& call_ensures(Float32Array::clone, (a,), b)
            },
            TypedArray::Float64Array(a) => {
                &&& r matches TypedArray::Float64Array(b)
                &&& call_ensures(Float64Array::clone, (a,), b)
            },
        }
    }

    /// The element kind of the array that the handle holds.
    #[verifier::when_used_as_spec(spec_kind)]
    pub fn kind(&self) -> (k: ElementKind)
        ensures
            k == self.spec_kind(),
    {
        match self {
            TypedArray::Int8Array(_) => ElementKind::Int8,
            TypedArray::Uint8Array(_) => ElementKind::Uint8,
            TypedArray::Uint8ClampedArray(_) => ElementKind::Uint8Clamped,
            TypedArray::Int16Array(_) => ElementKind::Int16,
            TypedArray::Uint16Array(_) => ElementKind::Uint16,
            TypedArray::Int32Array(_) => ElementKind::Int32,
            TypedArray::Uint32Array(_) => ElementKind::Uint32,
            TypedArray::Float32Array(_) => ElementKind::Float32,
            TypedArray::Float64Array(_) => ElementKind::Float64,
        }
    }

    /// The `ArrayBuffer` that the array is a view of, as the host hands it
    /// out.
    pub fn buffer(&self) -> (b: ArrayBuffer)
        ensures
            self.host_buffer(b),
    {
        match self {
            TypedArray::Int8Array(i) => i.buffer(),
            TypedArray::Uint8Array(i) => i.buffer(),
            TypedArray::Uint8ClampedArray(i) => i.buffer(),
            TypedArray::Int16Array(i) => i.buffer(),
            TypedArray::Uint16Array(i) => i.buffer(),
            TypedArray::Int32Array(i) => i.buffer(),
            TypedArray::Uint32Array(i) => i.buffer(),
            TypedArray::Float32Array(i) => i.buffer(),
            TypedArray::Float64Array(i) => i.buffer(),
        }
    }

    /// Calls the method `name` of the array with two numbers and makes a
    /// handle of this handle's kind of what comes back.
    fn range(&self, name: &str, begin: u32, end: u32) -> (r: Result<Self, HostError>)
        ensures
            self.host_range(name, begin, end, r),
            r matches Ok(t) ==> t.kind() == self.kind(),
    {
        let this: &JsValue = self.as_ref();
        let from = JsValue::from(begin);
        let to = JsValue::from(end);
        match invoke(this, name, &from, &to) {
            Err(e) => Err(e),
            Ok(v) => match ask_cast(v, self.kind()) {
                Ok(t) => Ok(t),
                Err(back) => Err(HostError::Unexpected(back)),
            },
        }
    }

    /// A new array of the same kind on the same buffer, over the elements
    /// from `begin` up to `end`, as the host makes it. What the host makes of
    /// a `begin` or an `end` outside the array is the host's own affair.
    /// Where the host throws, as it does on an array whose buffer is
    /// detached, the thrown value comes back as the error.
    pub fn subarray(&self, begin: u32, end: u32) -> (r: Result<Self, HostError>)
        ensures
            self.host_subarray(begin, end, r),
            r matches Ok(t) ==> t.kind() == self.kind(),
    {
        self.range("subarray", begin, end)
    }

    /// A new array of the same kind in a buffer of its own, holding a copy of
    /// the elements from `begin` up to `end`, as the host makes it. Where the
    /// host throws, as it does on an array whose buffer is detached, the
    /// thrown value comes back as the error.
    pub fn slice(&self, begin: u32, end: u32) -> (r: Result<Self, HostError>)
        ensures
            self.host_slice(begin, end, r),
            r matches Ok(t) ==> t.kind() == self.kind(),
    {
        self.range("slice", begin, end)
    }

    /// The length of the array in elements, as the host reports it.
    pub fn length(&self) -> (n: u32)
        ensures
            self.host_length(n),
    {
        match self {
            TypedArray::Int8Array(i) => i.length(),
            TypedArray::Uint8Array(i) => i.length(),
            TypedArray::Uint8ClampedArray(i) => i.length(),
            TypedArray::Int16Array(i) => i.length(),
            TypedArray::Uint16Array(i) => i.length(),
            TypedArray::Int32Array(i) => i.length(),
            TypedArray::Uint32Array(i) => i.length(),
            TypedArray::Float32Array(i) => i.length(),
            TypedArray::Float64Array(i) => i.length(),
        }
    }

    /// The length of the array in bytes, as the host reports it. On a host
    /// that keeps to the standard it is the length in elements times the
    /// [`width`](ElementKind::width) of the kind.
    pub fn byte_length(&self) -> (n: u32)
        ensures
            self.host_byte_length(n),
    {
        match self {
            TypedArray::Int8Array(i) => i.byte_length(),
            TypedArray::Uint8Array(i) => i.byte_length(),
            TypedArray::Uint8ClampedArray(i) => i.byte_length(),
            TypedArray::Int16Array(i) => i.byte_length(),
            TypedArray::Uint16Array(i) => i.byte_length(),
            TypedArray::Int32Array(i) => i.byte_length(),
            TypedArray::Uint32Array(i) => i.byte_length(),
            TypedArray::Float32Array(i) => i.byte_length(),
            TypedArray::Float64Array(i) => i.byte_length(),
        }
    }

    /// The offset in bytes of the array from the start of its buffer, as the
    /// host reports it.
    pub fn byte_offset(&self) -> (n: u32)
        ensures
            self.host_byte_offset(n),
    {
        match self {
            TypedArray::Int8Array(i) => i.byte_offset(),
            TypedArray::Uint8Array(i) => i.byte_offset(),
            TypedArray::Uint8ClampedArray(i) => i.byte_offset(),
            TypedArray::Int16Array(i) => i.byte_offset(),
            TypedArray::Uint16Array(i) => i.byte_offset(),
            TypedArray::Int32Array(i) => i.byte_offset(),
            TypedArray::Uint32Array(i) => i.byte_offset(),
            TypedArray::Float32Array(i) => i.byte_offset(),
            TypedArray::Float64Array(i) => i.byte_offset(),
        }
    }

    /// Has the host store the elements of `src` in the array, from the
    /// element at `offset` on. Where the host throws, as it does where `src`
    /// does not fit behind `offset`, the thrown value comes back as the
    /// error.
    pub fn set(&self, src: &JsValue, offset: u32) -> (r: Result<(), HostError>)
        ensures
            self.host_set(*src, offset, r),
            r matches Err(e) ==> e is Thrown,
    {
        let this: &JsValue = self.as_ref();
        let at = JsValue::from(offset);
        match invoke(this, "set", src, &at) {
            Ok(_) => Ok(()),
            Err(e) => Err(e),
        }
    }

    /// The handle made of an array `x` reports what `x` itself reports: a
    /// getter of the handle hands back a value exactly where the same getter
    /// of `x` hands it back. That the host answers twice alike is the host's
    /// affair, and is not claimed.
    pub proof fn lemma_getters_forward(self, b: ArrayBuffer, n: u32)
        ensures
            match self {
                TypedArray::Int8Array(x) => {
                    &&& self == <TypedArray as FromSpec<Int8Array>>::from_spec(x)
                    &&& self.host_buffer(b) <==> call_ensures(Int8Array::buffer, (&x,), b)
                    &&& self.host_length(n) <==> call_ensures(Int8Array::length, (&x,), n)
                    &&& self.host_byte_length(n) <==> call_ensures(Int8Array::byte_length, (&x,), n)
                    &&& self.host_byte_offset(n) <==> call_ensures(Int8Array::byte_offset, (&x,), n)
                },
                TypedArray::Uint8Array(x) => {
                    &&& self == <TypedArray as FromSpec<Uint8Array>>::from_spec(x)
                    &&& self.host_buffer(b) <==> call_ensures(Uint8Array::buffer, (&x,), b)
                    &&& self.host_length(n) <==> call_ensures(Uint8Array::length, (&x,), n)
                    &&& self.host_byte_length(n) <==> call_ensures(
                        Uint8Array::byte_length,
                        (&x,),
                        n,
                    )
                    &&& self.host_byte_offset(n) <==> call_ensures(
                        Uint8Array::byte_offset,
                        (&x,),
                        n,
                    )
                },
                TypedArray::Uint8ClampedArray(x) => {
                    &&& self == <TypedArray as FromSpec<Uint8ClampedArray>>::from_spec(x)
                    &&& self.host_buffer(b) <==> call_ensures(Uint8ClampedArray::buffer, (&x,), b)
                    &&& self.host_length(n) <==> call_ensures(Uint8ClampedArray::length, (&x,), n)
                    &&& self.host_byte_length(n) <==> call_ensures(
                        Uint8ClampedArray::byte_length,
                        (&x,),
                        n,
                    )
                    &&& self.host_byte_offset(n) <==> call_ensures(
                        Uint8ClampedArray::byte_offset,
                        (&x,),
                        n,
                    )
                },
                TypedArray::Int16Array(x) => {
                    &&& self == <TypedArray as FromSpec<Int16Array>>::from_spec(x)
                    &&& self.host_buffer(b) <==> call_ensures(Int16Array::buffer, (&x,), b)
                    &&& self.host_length(n) <==> call_ensures(Int16Array::length, (&x,), n)
                    &&& self.host_byte_length(n) <==> call_ensures(
                        Int16Array::byte_length,
                        (&x,),
                        n,
                    )
                    &&& self.host_byte_offset(n) <==> call_ensures(
                        Int16Array::byte_offset,
                        (&x,),
                        n,
                    )
                },
                TypedArray::Uint16Array(x) => {
                    &&& self == <TypedArray as FromSpec<Uint16Array>>::from_spec(x)
                    &&& self.host_buffer(b) <==> call_ensures(Uint16Array::buffer, (&x,), b)
                    &&& self.host_length(n) <==> call_ensures(Uint16Array::length, (&x,), n)
                    &&& self.host_byte_length(n) <==> call_ensures(
                        Uint16Array::byte_length,
                        (&x,),
                        n,
                    )
                    &&& self.host_byte_offset(n) <==> call_ensures(
                        Uint16Array::byte_offset,
                        (&x,),
                        n,
                    )
                },
                TypedArray::Int32Array(x) => {
                    &&& self == <TypedArray as FromSpec<Int32Array>>::from_spec(x)
                    &&& self.host_buffer(b) <==> call_ensures(Int32Array::buffer, (&x,), b)
                    &&& self.host_length(n) <==> call_ensures(Int32Array::length, (&x,), n)
                    &&& self.host_byte_length(n) <==> call_ensures(
                        Int32Array::byte_length,
                        (&x,),
                        n,
                    )
                    &&& self.host_byte_offset(n) <==> call_ensures(
                        Int32Array::byte_offset,
                        (&x,),
                        n,
                    )
                },
                TypedArray::Uint32Array(x) => {
                    &&& self == <TypedArray as FromSpec<Uint32Array>>::from_spec(x)
                    &&& self.host_buffer(b) <==> call_ensures(Uint32Array::buffer, (&x,), b)
                    &&& self.host_length(n) <==> call_ensures(Uint32Array::length, (&x,), n)
                    &&& self.host_byte_length(n) <==> call_ensures(
                        Uint32Array::byte_length,
                        (&x,),
                        n,
                    )
                    &&& self.host_byte_offset(n) <==> call_ensures(
                        Uint32Array::byte_offset,
                        (&x,),
                        n,
                    )
                },
                TypedArray::Float32Array(x) => {
                    &&& self == <TypedArray as FromSpec<Float32Array>>::from_spec(x)
                    &&& self.host_buffer(b) <==> call_ensures(Float32Array::buffer, (&x,), b)
                    &&& self.host_length(n) <==> call_ensures(Float32Array::length, (&x,), n)
                    &&& self.host_byte_length(n) <==> call_ensures(
                        Float32Array::byte_length,
                        (&x,),
                        n,
                    )
                    &&& self.host_byte_offset(n) <==> call_ensures(
                        Float32Array::byte_offset,
                        (&x,),
                        n,
                    )
                },
                TypedArray::Float64Array(x) => {
                    &&& self == <TypedArray as FromSpec<Float64Array>>::from_spec(x)
                    &&& self.host_buffer(b) <==> call_ensures(Float64Array::buffer, (&x,), b)
                    &&& self.host_length(n) <==> call_ensures(Float64Array::length, (&x,), n)
                    &&& self.host_byte_length(n) <==> call_ensures(
                        Float64Array::byte_length,
                        (&x,),
                        n,
                    )
                    &&& self.host_byte_offset(n) <==> call_ensures(
                        Float64Array::byte_offset,
                        (&x,),
                        n,
                    )
                },
            },
    {
    }
}

impl Clone for TypedArray {
    /// A second handle of the same kind to the same array of the host. The
    /// buffer is not copied.
    fn clone(&self) -> (r: Self)
        ensures
            self.host_clone(r),
            r.kind() == self.kind(),
    {
        match self {
            TypedArray::Int8Array(i) => TypedArray::Int8Array(i.clone()),
            TypedArray::Uint8Array(i) => TypedArray::Uint8Array(i.clone()),
            TypedArray::Uint8ClampedArray(i) => TypedArray::Uint8ClampedArray(i.clone()),
            TypedArray::Int16Array(i) => TypedArray::Int16Array(i.clone()),
            TypedArray::Uint16Array(i) => TypedArray::Uint16Array(i.clone()),
            TypedArray::Int32Array(i) => TypedArray::Int32Array(i.clone()),
            TypedArray::Uint32Array(i) => TypedArray::Uint32Array(i.clone()),
            TypedArray::Float32Array(i) => TypedArray::Float32Array(i.clone()),
            TypedArray::Float64Array(i) => TypedArray::Float64Array(i.clone()),
        }
    }
}

impl AsRef<JsValue> for TypedArray {
    /// The handle as a value of the host.
    fn as_ref(&self) -> &JsValue
        returns
            &self.value(),
    {
        match self {
            TypedArray::Int8Array(i) => int8_array_as_value(i),
            TypedArray::Uint8Array(i) => uint8_array_as_value(i),
            TypedArray::Uint8ClampedArray(i) => uint8_clamped_array_as_value(i),
            TypedArray::Int16Array(i) => int16_array_as_value(i),
            TypedArray::Uint16Array(i) => uint16_array_as_value(i),
            TypedArray::Int32Array(i) => int32_array_as_value(i),
            TypedArray::Uint32Array(i) => uint32_array_as_value(i),
            TypedArray::Float32Array(i) => float32_array_as_value(i),
            TypedArray::Float64Array(i) => float64_array_as_value(i),
        }
    }
}

impl AsRef<Object> for TypedArray {
    /// The handle as an object of the host.
    fn as_ref(&self) -> &Object
        returns
            &self.object(),
    {
        match self {
            TypedArray::Int8Array(i) => int8_array_as_object(i),
            TypedArray::Uint8Array(i) => uint8_array_as_object(i),
            TypedArray::Uint8ClampedArray(i) => uint8_clamped_array_as_object(i),
            TypedArray::Int16Array(i) => int16_array_as_object(i),
            TypedArray::Uint16Array(i) => uint16_array_as_object(i),
            TypedArray::Int32Array(i) => int32_array_as_object(i),
            TypedArray::Uint32Array(i) => uint32_array_as_object(i),
            TypedArray::Float32Array(i) => float32_array_as_object(i),
            TypedArray::Float64Array(i) => float64_array_as_object(i),
        }
    }
}

impl core::ops::Deref for TypedArray {
    type Target = Object;

    /// The handle as an object of the host, so that the methods of `Object`
    /// can be called on a handle.
    fn deref(&self) -> (o: &Object)
        ensures
            *o == self.object(),
    {
        AsRef::<Object>::as_ref(self)
    }
}

} // verus!
