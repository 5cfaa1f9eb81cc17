use typed_array::{HostError, TryFromJsValueError, TryFromTypedArrayError};
use wasm_bindgen::convert::IntoWasmAbi;
use wasm_bindgen::JsValue;

fn assert_send<T: Send>() {}

fn assert_sync<T: Sync>() {}

#[test]
fn test_try_from_js_value_error_send() {
    assert_send::<TryFromJsValueError>();
}

#[test]
fn test_try_from_js_value_error_sync() {
    assert_sync::<TryFromJsValueError>();
}

#[test]
fn test_try_from_typed_array_error_send() {
    assert_send::<TryFromTypedArrayError>();
}

#[test]
fn test_try_from_typed_array_error_sync() {
    assert_sync::<TryFromTypedArrayError>();
}

#[test]
fn typed_array_error_says_what_failed() {
    assert_eq!(
        TryFromTypedArrayError.message(),
        "could not convert TypedArray to typed array instance"
    );
}

#[test]
fn js_value_error_says_what_failed() {
    assert_eq!(
        TryFromJsValueError.message(),
        "could not convert JsValue to TypedArray"
    );
}

#[test]
fn the_two_messages_differ() {
    assert_ne!(
        TryFromTypedArrayError.message(),
        TryFromJsValueError.message()
    );
}

#[test]
fn errors_are_unit_values() {
    assert_eq!(TryFromTypedArrayError::default(), TryFromTypedArrayError);
    assert_eq!(TryFromJsValueError::default(), TryFromJsValueError);
    assert_eq!(std::mem::size_of::<TryFromTypedArrayError>(), 0);
    assert_eq!(std::mem::size_of::<TryFromJsValueError>(), 0);
}

#[test]
fn errors_can_be_copied_and_compared() {
    let e = TryFromTypedArrayError;
    let f = e;
    assert_eq!(e, f);
    let g = TryFromJsValueError;
    let h = g;
    assert_eq!(g, h);
    assert_eq!(format!("{:?}", e), "TryFromTypedArrayError");
    assert_eq!(format!("{:?}", g), "TryFromJsValueError");
}

#[test]
fn host_error_says_what_failed() {
    assert_eq!(HostError::Thrown(JsValue::NULL).message(), "the host threw");
    assert_eq!(
        HostError::Unexpected(JsValue::NULL).message(),
        "the host returned no typed array of the kind"
    );
}

#[test]
fn host_error_keeps_the_value_of_the_host() {
    match HostError::Thrown(JsValue::TRUE) {
        HostError::Thrown(v) => assert_eq!((&v).into_abi(), (&JsValue::TRUE).into_abi()),
        HostError::Unexpected(_) => panic!("the variant changed"),
    }
    match HostError::Unexpected(JsValue::FALSE) {
        HostError::Unexpected(v) => assert_eq!((&v).into_abi(), (&JsValue::FALSE).into_abi()),
        HostError::Thrown(_) => panic!("the variant changed"),
    }
}
