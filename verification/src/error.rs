//! The errors. The two of the conversions carry nothing: the type alone says
//! what went wrong. The one of the host carries the value that the host gave
//! in place of what was asked.

use vstd::prelude::*;
use wasm_bindgen::JsValue;

verus! {

/// The host did not do what `subarray`, `slice` or `set` asked of it.
#[derive(Debug)]
pub enum HostError {
    /// The host threw this value.
    Thrown(JsValue),
    /// The host returned this value, which is no typed array of the kind
    /// that was expected.
    Unexpected(JsValue),
}

impl HostError {
    /// The error in words.
    pub fn message(&self) -> (m: &'static str)
        ensures
            self is Thrown ==> m@ == "the host threw"@,
            self is Unexpected ==> m@ == "the host returned no typed array of the kind"@,
    {
        match self {
            HostError::Thrown(_) => "the host threw",
            HostError::Unexpected(_) => "the host returned no typed array of the kind",
        }
    }
}

/// The handle did not hold the typed array that was asked of it.
#[derive(Copy, Clone, PartialEq, Eq, Structural, Hash, Debug)]
pub struct TryFromTypedArrayError;

impl TryFromTypedArrayError {
    /// The error in words.
    pub fn message(&self) -> (m: &'static str)
        ensures
            m@ == "could not convert TypedArray to typed array instance"@,
    {
        "could not convert TypedArray to typed array instance"
    }
}

impl Default for TryFromTypedArrayError {
    fn default() -> (e: Self)
        ensures
            e == TryFromTypedArrayError,
    {
        TryFromTypedArrayError
    }
}

/// The value was none of the nine typed arrays.
#[derive(Copy, Clone, PartialEq, Eq, Structural, Hash, Debug)]
pub struct TryFromJsValueError;

impl TryFromJsValueError {
    /// The error in words.
    pub fn message(&self) -> (m: &'static str)
        ensures
            m@ == "could not convert JsValue to TypedArray"@,
    {
        "could not convert JsValue to TypedArray"
    }
}

impl Default for TryFromJsValueError {
    fn default() -> (e: Self)
        ensures
            e == TryFromJsValueError,
    {
        TryFromJsValueError
    }
}

} // verus!
