//! What the library takes from the host on trust: the types of `js_sys` and
//! `wasm_bindgen` that it holds, and the calls that it makes on them. Nothing
//! in this file is proved, and the rest of the library rests on it.
//!
//! A typed array in Rust is a reference into the host's heap. What the host
//! answers when asked about an array can change between two calls: a buffer
//! can be detached or resized, a prototype replaced. So the calls that ask
//! the host are declared without a claim on their answer, and the library
//! states of such an answer only which call gave it. The two widening views,
//! which stay within Rust, are functions of the array alone and have a name.
//!
//! The host reports a failure by throwing, and a thrown value stops a call
//! that does not take it up. The getters and `clone` do not throw on an
//! array that is what its type says. `subarray`, `slice` and `set` do: on an
//! array whose buffer is detached, and `set` also where the source is `null`
//! or `undefined` or does not fit behind the offset. So the library does not
//! call these three as `js_sys` binds them. It looks the method up with
//! `Reflect::get` and calls it with `Function::call2`, which both hand a
//! thrown value back as an `Err`.
//!
//! Without a host, on a target other than wasm, `js_sys` panics in each call
//! that asks the host.

use js_sys::{
    ArrayBuffer, Float32Array, Float64Array, Function, Int16Array, Int32Array, Int8Array,
    Object, Uint16Array, Uint32Array, Uint8Array, Uint8ClampedArray,
};
use vstd::prelude::*;
use wasm_bindgen::{JsCast, JsValue};

verus! {

// The types. Each is opaque: a value is carried, never looked into.

/// `wasm_bindgen::JsValue`, any value of the host.
#[verifier::external_type_specification]
#[verifier::external_body]
pub struct ExJsValue(wasm_bindgen::JsValue);

/// `js_sys::Object`, the host's `Object`, which every typed array extends.
#[verifier::external_type_specification]
#[verifier::external_body]
#[verifier::reject_recursive_types(T)]
pub struct ExObject<T>(js_sys::Object<T>);

/// `js_sys::ArrayBuffer`, the bytes that typed arrays are views of.
#[verifier::external_type_specification]
#[verifier::external_body]
pub struct ExArrayBuffer(js_sys::ArrayBuffer);

/// `js_sys::Int8Array`.
#[verifier::external_type_specification]
#[verifier::external_body]
pub struct ExInt8Array(js_sys::Int8Array);

/// `js_sys::Uint8Array`.
#[verifier::external_type_specification]
#[verifier::external_body]
pub struct ExUint8Array(js_sys::Uint8Array);

/// `js_sys::Uint8ClampedArray`.
#[verifier::external_type_specification]
#[verifier::external_body]
pub struct ExUint8ClampedArray(js_sys::Uint8ClampedArray);

/// `js_sys::Int16Array`.
#[verifier::external_type_specification]
#[verifier::external_body]
pub struct ExInt16Array(js_sys::Int16Array);

/// `js_sys::Uint16Array`.
#[verifier::external_type_specification]
#[verifier::external_body]
pub struct ExUint16Array(js_sys::Uint16Array);

/// `js_sys::Int32Array`.
#[verifier::external_type_specification]
#[verifier::external_body]
pub struct ExInt32Array(js_sys::Int32Array);

/// `js_sys::Uint32Array`.
#[verifier::external_type_specification]
#[verifier::external_body]
pub struct ExUint32Array(js_sys::Uint32Array);

/// `js_sys::Float32Array`.
#[verifier::external_type_specification]
#[verifier::external_body]
pub struct ExFloat32Array(js_sys::Float32Array);

/// `js_sys::Float64Array`.
#[verifier::external_type_specification]
#[verifier::external_body]
pub struct ExFloat64Array(js_sys::Float64Array);

// `Clone::clone` of each array. The clone is a second reference to the same
// array of the host; nothing is claimed of it.

/// `<js_sys::Int8Array as Clone>::clone`: no claim on the clone.
pub assume_specification[ <js_sys::Int8Array as Clone>::clone ](this: &Int8Array) -> Int8Array;

/// `<js_sys::Uint8Array as Clone>::clone`: no claim on the clone.
pub assume_specification[ <js_sys::Uint8Array as Clone>::clone ](this: &Uint8Array) -> Uint8Array;

/// `<js_sys::Uint8ClampedArray as Clone>::clone`: no claim on the clone.
pub assume_specification[ <js_sys::Uint8ClampedArray as Clone>::clone ](
    this: &Uint8ClampedArray,
) -> Uint8ClampedArray;

/// `<js_sys::Int16Array as Clone>::clone`: no claim on the clone.
pub assume_specification[ <js_sys::Int16Array as Clone>::clone ](this: &Int16Array) -> Int16Array;

/// `<js_sys::Uint16Array as Clone>::clone`: no claim on the clone.
pub assume_specification[ <js_sys::Uint16Array as Clone>::clone ](
    this: &Uint16Array,
) -> Uint16Array;

/// `<js_sys::Int32Array as Clone>::clone`: no claim on the clone.
pub assume_specification[ <js_sys::Int32Array as Clone>::clone ](this: &Int32Array) -> Int32Array;

/// `<js_sys::Uint32Array as Clone>::clone`: no claim on the clone.
pub assume_specification[ <js_sys::Uint32Array as Clone>::clone ](
    this: &Uint32Array,
) -> Uint32Array;

/// `<js_sys::Float32Array as Clone>::clone`: no claim on the clone.
pub assume_specification[ <js_sys::Float32Array as Clone>::clone ](
    this: &Float32Array,
) -> Float32Array;

/// `<js_sys::Float64Array as Clone>::clone`: no claim on the clone.
pub assume_specification[ <js_sys::Float64Array as Clone>::clone ](
    this: &Float64Array,
) -> Float64Array;

// The `buffer` getter of each array. Each call makes a new reference to the
// buffer; nothing is claimed of it.

/// `js_sys::Int8Array::buffer`: no claim on the buffer that comes back.
pub assume_specification[ js_sys::Int8Array::buffer ](this: &Int8Array) -> ArrayBuffer;

/// `js_sys::Uint8Array::buffer`: no claim on the buffer that comes back.
pub assume_specification[ js_sys::Uint8Array::buffer ](this: &Uint8Array) -> ArrayBuffer;

/// `js_sys::Uint8ClampedArray::buffer`: no claim on the buffer that comes back.
pub assume_specification[ js_sys::Uint8ClampedArray::buffer ](
    this: &Uint8ClampedArray,
) -> ArrayBuffer;

/// `js_sys::Int16Array::buffer`: no claim on the buffer that comes back.
pub assume_specification[ js_sys::Int16Array::buffer ](this: &Int16Array) -> ArrayBuffer;

/// `js_sys::Uint16Array::buffer`: no claim on the buffer that comes back.
pub assume_specification[ js_sys::Uint16Array::buffer ](this: &Uint16Array) -> ArrayBuffer;

/// `js_sys::Int32Array::buffer`: no claim on the buffer that comes back.
pub assume_specification[ js_sys::Int32Array::buffer ](this: &Int32Array) -> ArrayBuffer;

/// `js_sys::Uint32Array::buffer`: no claim on the buffer that comes back.
pub assume_specification[ js_sys::Uint32Array::buffer ](this: &Uint32Array) -> ArrayBuffer;

/// `js_sys::Float32Array::buffer`: no claim on the buffer that comes back.
pub assume_specification[ js_sys::Float32Array::buffer ](this: &Float32Array) -> ArrayBuffer;

/// `js_sys::Float64Array::buffer`: no claim on the buffer that comes back.
pub assume_specification[ js_sys::Float64Array::buffer ](this: &Float64Array) -> ArrayBuffer;

// The `length` getter of each array, in elements. The host reports 0 once
// the buffer is detached; nothing is claimed of the number.

/// `js_sys::Int8Array::length`: no claim on the number that comes back.
pub assume_specification[ js_sys::Int8Array::length ](this: &Int8Array) -> u32;

/// `js_sys::Uint8Array::length`: no claim on the number that comes back.
pub assume_specification[ js_sys::Uint8Array::length ](this: &Uint8Array) -> u32;

/// `js_sys::Uint8ClampedArray::length`: no claim on the number that comes back.
pub assume_specification[ js_sys::Uint8ClampedArray::length ](this: &Uint8ClampedArray) -> u32;

/// `js_sys::Int16Array::length`: no claim on the number that comes back.
pub assume_specification[ js_sys::Int16Array::length ](this: &Int16Array) -> u32;

/// `js_sys::Uint16Array::length`: no claim on the number that comes back.
pub assume_specification[ js_sys::Uint16Array::length ](this: &Uint16Array) -> u32;

/// `js_sys::Int32Array::length`: no claim on the number that comes back.
pub assume_specification[ js_sys::Int32Array::length ](this: &Int32Array) -> u32;

/// `js_sys::Uint32Array::length`: no claim on the number that comes back.
pub assume_specification[ js_sys::Uint32Array::length ](this: &Uint32Array) -> u32;

/// `js_sys::Float32Array::length`: no claim on the number that comes back.
pub assume_specification[ js_sys::Float32Array::length ](this: &Float32Array) -> u32;

/// `js_sys::Float64Array::length`: no claim on the number that comes back.
pub assume_specification[ js_sys::Float64Array::length ](this: &Float64Array) -> u32;

// The `byteLength` getter of each array. Nothing is claimed of the number.

/// `js_sys::Int8Array::byte_length`: no claim on the number that comes back.
pub assume_specification[ js_sys::Int8Array::byte_length ](this: &Int8Array) -> u32;

/// `js_sys::Uint8Array::byte_length`: no claim on the number that comes back.
pub assume_specification[ js_sys::Uint8Array::byte_length ](this: &Uint8Array) -> u32;

/// `js_sys::Uint8ClampedArray::byte_length`: no claim on the number that comes back.
pub assume_specification[ js_sys::Uint8ClampedArray::byte_length ](this: &Uint8ClampedArray) -> u32;

/// `js_sys::Int16Array::byte_length`: no claim on the number that comes back.
pub assume_specification[ js_sys::Int16Array::byte_length ](this: &Int16Array) -> u32;

/// `js_sys::Uint16Array::byte_length`: no claim on the number that comes back.
pub assume_specification[ js_sys::Uint16Array::byte_length ](this: &Uint16Array) -> u32;

/// `js_sys::Int32Array::byte_length`: no claim on the number that comes back.
pub assume_specification[ js_sys::Int32Array::byte_length ](this: &Int32Array) -> u32;

/// `js_sys::Uint32Array::byte_length`: no claim on the number that comes back.
pub assume_specification[ js_sys::Uint32Array::byte_length ](this: &Uint32Array) -> u32;

/// `js_sys::Float32Array::byte_length`: no claim on the number that comes back.
pub assume_specification[ js_sys::Float32Array::byte_length ](this: &Float32Array) -> u32;

/// `js_sys::Float64Array::byte_length`: no claim on the number that comes back.
pub assume_specification[ js_sys::Float64Array::byte_length ](this: &Float64Array) -> u32;

// The `byteOffset` getter of each array. Nothing is claimed of the number.

/// `js_sys::Int8Array::byte_offset`: no claim on the number that comes back.
pub assume_specification[ js_sys::Int8Array::byte_offset ](this: &Int8Array) -> u32;

/// `js_sys::Uint8Array::byte_offset`: no claim on the number that comes back.
pub assume_specification[ js_sys::Uint8Array::byte_offset ](this: &Uint8Array) -> u32;

/// `js_sys::Uint8ClampedArray::byte_offset`: no claim on the number that comes back.
pub assume_specification[ js_sys::Uint8ClampedArray::byte_offset ](this: &Uint8ClampedArray) -> u32;

/// `js_sys::Int16Array::byte_offset`: no claim on the number that comes back.
pub assume_specification[ js_sys::Int16Array::byte_offset ](this: &Int16Array) -> u32;

/// `js_sys::Uint16Array::byte_offset`: no claim on the number that comes back.
pub assume_specification[ js_sys::Uint16Array::byte_offset ](this: &Uint16Array) -> u32;

/// `js_sys::Int32Array::byte_offset`: no claim on the number that comes back.
pub assume_specification[ js_sys::Int32Array::byte_offset ](this: &Int32Array) -> u32;

/// `js_sys::Uint32Array::byte_offset`: no claim on the number that comes back.
pub assume_specification[ js_sys::Uint32Array::byte_offset ](this: &Uint32Array) -> u32;

/// `js_sys::Float32Array::byte_offset`: no claim on the number that comes back.
pub assume_specification[ js_sys::Float32Array::byte_offset ](this: &Float32Array) -> u32;

/// `js_sys::Float64Array::byte_offset`: no claim on the number that comes back.
pub assume_specification[ js_sys::Float64Array::byte_offset ](this: &Float64Array) -> u32;

// What a method call by name is made of. None of the four claims anything of
// what comes back.

/// `wasm_bindgen::JsValue::from_str`: the host's string of `s`. No claim on
/// the value that comes back.
pub assume_specification[ wasm_bindgen::JsValue::from_str ](s: &str) -> JsValue;

/// `<wasm_bindgen::JsValue as From<u32>>::from`: the host's number of `n`. No
/// claim on the value that comes back.
pub assume_specification[ <wasm_bindgen::JsValue as From<u32>>::from ](n: u32) -> JsValue;

/// `js_sys::Reflect::get`: what `target` holds under `key`, or what the host
/// threw when asked. No claim on which, nor on the value.
pub assume_specification[ js_sys::Reflect::get ](target: &JsValue, key: &JsValue) -> Result<
    JsValue,
    JsValue,
>;

/// `js_sys::Function::call2` with `this` and two arguments: what the function
/// returned, or what the host threw. No claim on which, nor on the value.
/// `method` is taken as a `Function` by `JsCast::unchecked_ref`, a cast within
/// Rust that asks nothing of the host; where it is no function the host
/// throws in the call, and the thrown value comes back like any other.
#[verifier::external_body]
pub(crate) fn call_method(method: &JsValue, this: &JsValue, a: &JsValue, b: &JsValue) -> (r: Result<
    JsValue,
    JsValue,
>) {
    method.unchecked_ref::<Function>().call2(this, a, b)
}

// The view of each array as a `JsValue`. It is the value that the array was
// made of, found inside the array without asking the host.

/// The `JsValue` that an `Int8Array` is a view of.
pub uninterp spec fn int8_array_value(a: Int8Array) -> JsValue;

/// The `JsValue` that a `Uint8Array` is a view of.
pub uninterp spec fn uint8_array_value(a: Uint8Array) -> JsValue;

/// The `JsValue` that a `Uint8ClampedArray` is a view of.
pub uninterp spec fn uint8_clamped_array_value(a: Uint8ClampedArray) -> JsValue;

/// The `JsValue` that an `Int16Array` is a view of.
pub uninterp spec fn int16_array_value(a: Int16Array) -> JsValue;

/// The `JsValue` that a `Uint16Array` is a view of.
pub uninterp spec fn uint16_array_value(a: Uint16Array) -> JsValue;

/// The `JsValue` that an `Int32Array` is a view of.
pub uninterp spec fn int32_array_value(a: Int32Array) -> JsValue;

/// The `JsValue` that a `Uint32Array` is a view of.
pub uninterp spec fn uint32_array_value(a: Uint32Array) -> JsValue;

/// The `JsValue` that a `Float32Array` is a view of.
pub uninterp spec fn float32_array_value(a: Float32Array) -> JsValue;

/// The `JsValue` that a `Float64Array` is a view of.
pub uninterp spec fn float64_array_value(a: Float64Array) -> JsValue;

/// `<js_sys::Int8Array as AsRef<JsValue>>::as_ref`: hands out the value that the
/// array is a view of.
#[verifier::external_body]
pub(crate) fn int8_array_as_value(a: &Int8Array) -> (v: &JsValue)
    ensures
        *v == int8_array_value(*a),
{
    AsRef::<JsValue>::as_ref(a)
}

/// `<js_sys::Uint8Array as AsRef<JsValue>>::as_ref`: hands out the value that the
/// array is a view of.
#[verifier::external_body]
pub(crate) fn uint8_array_as_value(a: &Uint8Array) -> (v: &JsValue)
    ensures
        *v == uint8_array_value(*a),
{
    AsRef::<JsValue>::as_ref(a)
}

/// `<js_sys::Uint8ClampedArray as AsRef<JsValue>>::as_ref`: hands out the value that the
/// array is a view of.
#[verifier::external_body]
pub(crate) fn uint8_clamped_array_as_value(a: &Uint8ClampedArray) -> (v: &JsValue)
    ensures
        *v == uint8_clamped_array_value(*a),
{
    AsRef::<JsValue>::as_ref(a)
}

/// `<js_sys::Int16Array as AsRef<JsValue>>::as_ref`: hands out the value that the
/// array is a view of.
#[verifier::external_body]
pub(crate) fn int16_array_as_value(a: &Int16Array) -> (v: &JsValue)
    ensures
        *v == int16_array_value(*a),
{
    AsRef::<JsValue>::as_ref(a)
}

/// `<js_sys::Uint16Array as AsRef<JsValue>>::as_ref`: hands out the value that the
/// array is a view of.
#[verifier::external_body]
pub(crate) fn uint16_array_as_value(a: &Uint16Array) -> (v: &JsValue)
    ensures
        *v == uint16_array_value(*a),
{
    AsRef::<JsValue>::as_ref(a)
}

/// `<js_sys::Int32Array as AsRef<JsValue>>::as_ref`: hands out the value that the
/// array is a view of.
#[verifier::external_body]
pub(crate) fn int32_array_as_value(a: &Int32Array) -> (v: &JsValue)
    ensures
        *v == int32_array_value(*a),
{
    AsRef::<JsValue>::as_ref(a)
}

/// `<js_sys::Uint32Array as AsRef<JsValue>>::as_ref`: hands out the value that the
/// array is a view of.
#[verifier::external_body]
pub(crate) fn uint32_array_as_value(a: &Uint32Array) -> (v: &JsValue)
    ensures
        *v == uint32_array_value(*a),
{
    AsRef::<JsValue>::as_ref(a)
}

/// `<js_sys::Float32Array as AsRef<JsValue>>::as_ref`: hands out the value that the
/// array is a view of.
#[verifier::external_body]
pub(crate) fn float32_array_as_value(a: &Float32Array) -> (v: &JsValue)
    ensures
        *v == float32_array_value(*a),
{
    AsRef::<JsValue>::as_ref(a)
}

/// `<js_sys::Float64Array as AsRef<JsValue>>::as_ref`: hands out the value that the
/// array is a view of.
#[verifier::external_body]
pub(crate) fn float64_array_as_value(a: &Float64Array) -> (v: &JsValue)
    ensures
        *v == float64_array_value(*a),
{
    AsRef::<JsValue>::as_ref(a)
}

// The view of each array as an `Object`, found in the same way.

/// The `Object` that an `Int8Array` is a view of.
pub uninterp spec fn int8_array_object(a: Int8Array) -> Object;

/// The `Object` that a `Uint8Array` is a view of.
pub uninterp spec fn uint8_array_object(a: Uint8Array) -> Object;

/// The `Object` that a `Uint8ClampedArray` is a view of.
pub uninterp spec fn uint8_clamped_array_object(a: Uint8ClampedArray) -> Object;

/// The `Object` that an `Int16Array` is a view of.
pub uninterp spec fn int16_array_object(a: Int16Array) -> Object;

/// The `Object` that a `Uint16Array` is a view of.
pub uninterp spec fn uint16_array_object(a: Uint16Array) -> Object;

/// The `Object` that an `Int32Array` is a view of.
pub uninterp spec fn int32_array_object(a: Int32Array) -> Object;

/// The `Object` that a `Uint32Array` is a view of.
pub uninterp spec fn uint32_array_object(a: Uint32Array) -> Object;

/// The `Object` that a `Float32Array` is a view of.
pub uninterp spec fn float32_array_object(a: Float32Array) -> Object;

/// The `Object` that a `Float64Array` is a view of.
pub uninterp spec fn float64_array_object(a: Float64Array) -> Object;

/// `<js_sys::Int8Array as AsRef<Object>>::as_ref`: hands out the object that the
/// array is a view of.
#[verifier::external_body]
pub(crate) fn int8_array_as_object(a: &Int8Array) -> (o: &Object)
    ensures
        *o == int8_array_object(*a),
{
    AsRef::<Object>::as_ref(a)
}

/// `<js_sys::Uint8Array as AsRef<Object>>::as_ref`: hands out the object that the
/// array is a view of.
#[verifier::external_body]
pub(crate) fn uint8_array_as_object(a: &Uint8Array) -> (o: &Object)
    ensures
        *o == uint8_array_object(*a),
{
    AsRef::<Object>::as_ref(a)
}

/// `<js_sys::Uint8ClampedArray as AsRef<Object>>::as_ref`: hands out the object that the
/// array is a view of.
#[verifier::external_body]
pub(crate) fn uint8_clamped_array_as_object(a: &Uint8ClampedArray) -> (o: &Object)
    ensures
        *o == uint8_clamped_array_object(*a),
{
    AsRef::<Object>::as_ref(a)
}

/// `<js_sys::Int16Array as AsRef<Object>>::as_ref`: hands out the object that the
/// array is a view of.
#[verifier::external_body]
pub(crate) fn int16_array_as_object(a: &Int16Array) -> (o: &Object)
    ensures
        *o == int16_array_object(*a),
{
    AsRef::<Object>::as_ref(a)
}

/// `<js_sys::Uint16Array as AsRef<Object>>::as_ref`: hands out the object that the
/// array is a view of.
#[verifier::external_body]
pub(crate) fn uint16_array_as_object(a: &Uint16Array) -> (o: &Object)
    ensures
        *o == uint16_array_object(*a),
{
    AsRef::<Object>::as_ref(a)
}

/// `<js_sys::Int32Array as AsRef<Object>>::as_ref`: hands out the object that the
/// array is a view of.
#[verifier::external_body]
pub(crate) fn int32_array_as_object(a: &Int32Array) -> (o: &Object)
    ensures
        *o == int32_array_object(*a),
{
    AsRef::<Object>::as_ref(a)
}

/// `<js_sys::Uint32Array as AsRef<Object>>::as_ref`: hands out the object that the
/// array is a view of.
#[verifier::external_body]
pub(crate) fn uint32_array_as_object(a: &Uint32Array) -> (o: &Object)
    ensures
        *o == uint32_array_object(*a),
{
    AsRef::<Object>::as_ref(a)
}

/// `<js_sys::Float32Array as AsRef<Object>>::as_ref`: hands out the object that the
/// array is a view of.
#[verifier::external_body]
pub(crate) fn float32_array_as_object(a: &Float32Array) -> (o: &Object)
    ensures
        *o == float32_array_object(*a),
{
    AsRef::<Object>::as_ref(a)
}

/// `<js_sys::Float64Array as AsRef<Object>>::as_ref`: hands out the object that the
/// array is a view of.
#[verifier::external_body]
pub(crate) fn float64_array_as_object(a: &Float64Array) -> (o: &Object)
    ensures
        *o == float64_array_object(*a),
{
    AsRef::<Object>::as_ref(a)
}

// `JsCast::has_type` for each array type: the host is asked whether the value
// is such an array. Nothing is claimed of its answer.

/// `JsCast::has_type::<js_sys::Int8Array>` on a `JsValue`: no claim on the answer.
#[verifier::external_body]
pub(crate) fn is_int8_array(v: &JsValue) -> (hit: bool) {
    JsCast::has_type::<Int8Array>(v)
}

/// `JsCast::has_type::<js_sys::Uint8Array>` on a `JsValue`: no claim on the answer.
#[verifier::external_body]
pub(crate) fn is_uint8_array(v: &JsValue) -> (hit: bool) {
    JsCast::has_type::<Uint8Array>(v)
}

/// `JsCast::has_type::<js_sys::Uint8ClampedArray>` on a `JsValue`: no claim on the answer.
#[verifier::external_body]
pub(crate) fn is_uint8_clamped_array(v: &JsValue) -> (hit: bool) {
    JsCast::has_type::<Uint8ClampedArray>(v)
}

/// `JsCast::has_type::<js_sys::Int16Array>` on a `JsValue`: no claim on the answer.
#[verifier::external_body]
pub(crate) fn is_int16_array(v: &JsValue) -> (hit: bool) {
    JsCast::has_type::<Int16Array>(v)
}

/// `JsCast::has_type::<js_sys::Uint16Array>` on a `JsValue`: no claim on the answer.
#[verifier::external_body]
pub(crate) fn is_uint16_array(v: &JsValue) -> (hit: bool) {
    JsCast::has_type::<Uint16Array>(v)
}

/// `JsCast::has_type::<js_sys::Int32Array>` on a `JsValue`: no claim on the answer.
#[verifier::external_body]
pub(crate) fn is_int32_array(v: &JsValue) -> (hit: bool) {
    JsCast::has_type::<Int32Array>(v)
}

/// `JsCast::has_type::<js_sys::Uint32Array>` on a `JsValue`: no claim on the answer.
#[verifier::external_body]
pub(crate) fn is_uint32_array(v: &JsValue) -> (hit: bool) {
    JsCast::has_type::<Uint32Array>(v)
}

/// `JsCast::has_type::<js_sys::Float32Array>` on a `JsValue`: no claim on the answer.
#[verifier::external_body]
pub(crate) fn is_float32_array(v: &JsValue) -> (hit: bool) {
    JsCast::has_type::<Float32Array>(v)
}

/// `JsCast::has_type::<js_sys::Float64Array>` on a `JsValue`: no claim on the answer.
#[verifier::external_body]
pub(crate) fn is_float64_array(v: &JsValue) -> (hit: bool) {
    JsCast::has_type::<Float64Array>(v)
}

// `JsCast::dyn_into` for each array type. It asks `has_type` of the value
// and goes by the answer. After a yes the value comes back as the array,
// which is then a view of that value; after a no the value itself comes
// back. Which of the two happens is the host's answer and nothing is claimed
// of it. The last clause of each contract is Verus's way to say that
// `has_type`, called on `v`, handed back the answer that the cast went by.

/// `JsCast::dyn_into::<js_sys::Int8Array>` on a `JsValue`: the array that comes
/// back is a view of `v`, the value that comes back is `v`, and an array
/// comes back where `has_type` said yes of `v`.
#[verifier::external_body]
pub(crate) fn cast_int8_array(v: JsValue) -> (r: Result<Int8Array, JsValue>)
    ensures
        r matches Ok(a) ==> int8_array_value(a) == v,
        r matches Err(e) ==> e == v,
        call_ensures(is_int8_array, (&v,), r is Ok),
{
    JsCast::dyn_into::<Int8Array>(v)
}

/// `JsCast::dyn_into::<js_sys::Uint8Array>` on a `JsValue`: the array that comes
/// back is a view of `v`, the value that comes back is `v`, and an array
/// comes back where `has_type` said yes of `v`.
#[verifier::external_body]
pub(crate) fn cast_uint8_array(v: JsValue) -> (r: Result<Uint8Array, JsValue>)
    ensures
        r matches Ok(a) ==> uint8_array_value(a) == v,
        r matches Err(e) ==> e == v,
        call_ensures(is_uint8_array, (&v,), r is Ok),
{
    JsCast::dyn_into::<Uint8Array>(v)
}

/// `JsCast::dyn_into::<js_sys::Uint8ClampedArray>` on a `JsValue`: the array that comes
/// back is a view of `v`, the value that comes back is `v`, and an array
/// comes back where `has_type` said yes of `v`.
#[verifier::external_body]
pub(crate) fn cast_uint8_clamped_array(v: JsValue) -> (r: Result<Uint8ClampedArray, JsValue>)
    ensures
        r matches Ok(a) ==> uint8_clamped_array_value(a) == v,
        r matches Err(e) ==> e == v,
        call_ensures(is_uint8_clamped_array, (&v,), r is Ok),
{
    JsCast::dyn_into::<Uint8ClampedArray>(v)
}

/// `JsCast::dyn_into::<js_sys::Int16Array>` on a `JsValue`: the array that comes
/// back is a view of `v`, the value that comes back is `v`, and an array
/// comes back where `has_type` said yes of `v`.
#[verifier::external_body]
pub(crate) fn cast_int16_array(v: JsValue) -> (r: Result<Int16Array, JsValue>)
    ensures
        r matches Ok(a) ==> int16_array_value(a) == v,
        r matches Err(e) ==> e == v,
        call_ensures(is_int16_array, (&v,), r is Ok),
{
    JsCast::dyn_into::<Int16Array>(v)
}

/// `JsCast::dyn_into::<js_sys::Uint16Array>` on a `JsValue`: the array that comes
/// back is a view of `v`, the value that comes back is `v`, and an array
/// comes back where `has_type` said yes of `v`.
#[verifier::external_body]
pub(crate) fn cast_uint16_array(v: JsValue) -> (r: Result<Uint16Array, JsValue>)
    ensures
        r matches Ok(a) ==> uint16_array_value(a) == v,
        r matches Err(e) ==> e == v,
        call_ensures(is_uint16_array, (&v,), r is Ok),
{
    JsCast::dyn_into::<Uint16Array>(v)
}

/// `JsCast::dyn_into::<js_sys::Int32Array>` on a `JsValue`: the array that comes
/// back is a view of `v`, the value that comes back is `v`, and an array
/// comes back where `has_type` said yes of `v`.
#[verifier::external_body]
pub(crate) fn cast_int32_array(v: JsValue) -> (r: Result<Int32Array, JsValue>)
    ensures
        r matches Ok(a) ==> int32_array_value(a) == v,
        r matches Err(e) ==> e == v,
        call_ensures(is_int32_array, (&v,), r is Ok),
{
    JsCast::dyn_into::<Int32Array>(v)
}

/// `JsCast::dyn_into::<js_sys::Uint32Array>` on a `JsValue`: the array that comes
/// back is a view of `v`, the value that comes back is `v`, and an array
/// comes back where `has_type` said yes of `v`.
#[verifier::external_body]
pub(crate) fn cast_uint32_array(v: JsValue) -> (r: Result<Uint32Array, JsValue>)
    ensures
        r matches Ok(a) ==> uint32_array_value(a) == v,
        r matches Err(e) ==> e == v,
        call_ensures(is_uint32_array, (&v,), r is Ok),
{
    JsCast::dyn_into::<Uint32Array>(v)
}

/// `JsCast::dyn_into::<js_sys::Float32Array>` on a `JsValue`: the array that comes
/// back is a view of `v`, the value that comes back is `v`, and an array
/// comes back where `has_type` said yes of `v`.
#[verifier::external_body]
pub(crate) fn cast_float32_array(v: JsValue) -> (r: Result<Float32Array, JsValue>)
    ensures
        r matches Ok(a) ==> float32_array_value(a) == v,
        r matches Err(e) ==> e == v,
        call_ensures(is_float32_array, (&v,), r is Ok),
{
    JsCast::dyn_into::<Float32Array>(v)
}

/// `JsCast::dyn_into::<js_sys::Float64Array>` on a `JsValue`: the array that comes
/// back is a view of `v`, the value that comes back is `v`, and an array
/// comes back where `has_type` said yes of `v`.
#[verifier::external_body]
pub(crate) fn cast_float64_array(v: JsValue) -> (r: Result<Float64Array, JsValue>)
    ensures
        r matches Ok(a) ==> float64_array_value(a) == v,
        r matches Err(e) ==> e == v,
        call_ensures(is_float64_array, (&v,), r is Ok),
{
    JsCast::dyn_into::<Float64Array>(v)
}

} // verus!
