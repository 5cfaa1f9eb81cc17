//! A call of a method of the host by its name, which hands back what the
//! host throws.
//!
//! The method is looked up under its name and then called on the value it
//! was found on. Both steps can fail in the host, and both then give the
//! thrown value as an `Err`; a name under which the host holds no function
//! fails in the second step.

use crate::error::HostError;
use crate::host::call_method;
use js_sys::Reflect;
use vstd::prelude::*;
use wasm_bindgen::JsValue;

verus! {

/// Holds where `v` is a number that the host made of `n`.
pub open spec fn number_made(n: u32, v: JsValue) -> bool {
    call_ensures(<JsValue as From<u32>>::from, (n,), v)
}

/// Holds where `out` is what came of calling the method `name` of `this`
/// with `a` and `b`, given the answers of the host: the host made a string
/// of `name` and was asked what `this` holds under it. Where it threw, `out`
/// is the thrown value. Where it gave a value, that value was called as a
/// function on `this` with `a` and `b`, and `out` is what the function
/// returned, or what the host threw.
pub closed spec fn invoked(
    this: JsValue,
    name: &str,
    a: JsValue,
    b: JsValue,
    out: Result<JsValue, HostError>,
) -> bool {
    exists|key: JsValue, found: Result<JsValue, JsValue>|
        {
            &&& call_ensures(JsValue::from_str, (name,), key)
            &&& #[trigger] call_ensures(Reflect::get, (&this, &key), found)
            &&& match found {
                Err(thrown) => out == Err::<JsValue, HostError>(HostError::Thrown(thrown)),
                Ok(method) => called(method, this, a, b, out),
            }
        }
}

/// Holds where `out` is what came of calling `method` on `this` with `a` and
/// `b`.
spec fn called(
    method: JsValue,
    this: JsValue,
    a: JsValue,
    b: JsValue,
    out: Result<JsValue, HostError>,
) -> bool {
    exists|back: Result<JsValue, JsValue>|
        {
            &&& #[trigger] call_ensures(call_method, (&method, &this, &a, &b), back)
            &&& match back {
                Ok(v) => out == Ok::<JsValue, HostError>(v),
                Err(thrown) => out == Err::<JsValue, HostError>(HostError::Thrown(thrown)),
            }
        }
}

/// A call by name fails only by a thrown value.
pub proof fn lemma_invoked_fails_by_throwing(
    this: JsValue,
    name: &str,
    a: JsValue,
    b: JsValue,
    out: Result<JsValue, HostError>,
)
    requires
        invoked(this, name, a, b, out),
    ensures
        out matches Err(e) ==> e is Thrown,
{
}

/// Calls the method `name` of `this` with `a` and `b`.
pub(crate) fn invoke(this: &JsValue, name: &str, a: &JsValue, b: &JsValue) -> (out: Result<
    JsValue,
    HostError,
>)
    ensures
        invoked(*this, name, *a, *b, out),
        out matches Err(e) ==> e is Thrown,
{
    let key = JsValue::from_str(name);
    match Reflect::get(this, &key) {
        Err(thrown) => Err(HostError::Thrown(thrown)),
        Ok(method) => {
            match call_method(&method, this, a, b) {
                Ok(v) => Ok(v),
                Err(thrown) => Err(HostError::Thrown(thrown)),
            }
        },
    }
}

} // verus!
