use js_sys::{
    Float32Array, Float64Array, Int16Array, Int32Array, Int8Array, Object, Uint16Array,
    Uint32Array, Uint8Array, Uint8ClampedArray,
};
use typed_array::{ElementKind, TryFromTypedArrayError, TypedArray};
use wasm_bindgen::convert::IntoWasmAbi;
use wasm_bindgen::{JsCast, JsValue};

// No host runs under these tests. A typed array is made here of one of the
// four values that `wasm_bindgen` holds without a host, by an unchecked cast:
// enough for what the handle does on its own, which is all that can run.

fn index(v: &JsValue) -> u32 {
    v.into_abi()
}

fn one_of_each() -> Vec<TypedArray> {
    vec![
        TypedArray::from(JsValue::NULL.unchecked_into::<Int8Array>()),
        TypedArray::from(JsValue::NULL.unchecked_into::<Uint8Array>()),
        TypedArray::from(JsValue::NULL.unchecked_into::<Uint8ClampedArray>()),
        TypedArray::from(JsValue::NULL.unchecked_into::<Int16Array>()),
        TypedArray::from(JsValue::NULL.unchecked_into::<Uint16Array>()),
        TypedArray::from(JsValue::NULL.unchecked_into::<Int32Array>()),
        TypedArray::from(JsValue::NULL.unchecked_into::<Uint32Array>()),
        TypedArray::from(JsValue::NULL.unchecked_into::<Float32Array>()),
        TypedArray::from(JsValue::NULL.unchecked_into::<Float64Array>()),
    ]
}

// One handle of each kind, each made of the value whose index stands beside
// it, so that neighbours in the list are made of different values.
fn one_of_each_with_index() -> Vec<(TypedArray, u32)> {
    vec![
        (
            TypedArray::from(JsValue::UNDEFINED.unchecked_into::<Int8Array>()),
            index(&JsValue::UNDEFINED),
        ),
        (
            TypedArray::from(JsValue::NULL.unchecked_into::<Uint8Array>()),
            index(&JsValue::NULL),
        ),
        (
            TypedArray::from(JsValue::TRUE.unchecked_into::<Uint8ClampedArray>()),
            index(&JsValue::TRUE),
        ),
        (
            TypedArray::from(JsValue::FALSE.unchecked_into::<Int16Array>()),
            index(&JsValue::FALSE),
        ),
        (
            TypedArray::from(JsValue::UNDEFINED.unchecked_into::<Uint16Array>()),
            index(&JsValue::UNDEFINED),
        ),
        (
            TypedArray::from(JsValue::NULL.unchecked_into::<Int32Array>()),
            index(&JsValue::NULL),
        ),
        (
            TypedArray::from(JsValue::TRUE.unchecked_into::<Uint32Array>()),
            index(&JsValue::TRUE),
        ),
        (
            TypedArray::from(JsValue::FALSE.unchecked_into::<Float32Array>()),
            index(&JsValue::FALSE),
        ),
        (
            TypedArray::from(JsValue::UNDEFINED.unchecked_into::<Float64Array>()),
            index(&JsValue::UNDEFINED),
        ),
    ]
}

fn kinds_in_order() -> Vec<ElementKind> {
    vec![
        ElementKind::Int8,
        ElementKind::Uint8,
        ElementKind::Uint8Clamped,
        ElementKind::Int16,
        ElementKind::Uint16,
        ElementKind::Int32,
        ElementKind::Uint32,
        ElementKind::Float32,
        ElementKind::Float64,
    ]
}

#[test]
fn a_handle_has_the_variant_of_its_array() {
    let all = one_of_each();
    assert!(matches!(all[0], TypedArray::Int8Array(_)));
    assert!(matches!(all[1], TypedArray::Uint8Array(_)));
    assert!(matches!(all[2], TypedArray::Uint8ClampedArray(_)));
    assert!(matches!(all[3], TypedArray::Int16Array(_)));
    assert!(matches!(all[4], TypedArray::Uint16Array(_)));
    assert!(matches!(all[5], TypedArray::Int32Array(_)));
    assert!(matches!(all[6], TypedArray::Uint32Array(_)));
    assert!(matches!(all[7], TypedArray::Float32Array(_)));
    assert!(matches!(all[8], TypedArray::Float64Array(_)));
}

#[test]
fn a_handle_knows_its_kind() {
    let kinds: Vec<ElementKind> = one_of_each().iter().map(|t| t.kind()).collect();
    assert_eq!(kinds, kinds_in_order());
}

#[test]
fn into_makes_the_same_handle_as_from() {
    let t: TypedArray = JsValue::TRUE.unchecked_into::<Uint32Array>().into();
    assert_eq!(t.kind(), ElementKind::Uint32);
    let v: &JsValue = t.as_ref();
    assert_eq!(index(v), index(&JsValue::TRUE));
}

#[test]
fn extraction_of_the_own_kind_gives_the_array_back() {
    let t = TypedArray::from(JsValue::TRUE.unchecked_into::<Int16Array>());
    let a = Int16Array::try_from(t);
    assert!(a.is_ok());
    let a = a.ok().unwrap();
    let v: &JsValue = a.as_ref();
    assert_eq!(index(v), index(&JsValue::TRUE));

    let t = TypedArray::from(JsValue::FALSE.unchecked_into::<Float64Array>());
    let a = Float64Array::try_from(t).ok().unwrap();
    let v: &JsValue = a.as_ref();
    assert_eq!(index(v), index(&JsValue::FALSE));
}

#[test]
fn uint8_handle_is_no_int8_array() {
    let t = TypedArray::from(JsValue::NULL.unchecked_into::<Uint8Array>());
    assert_eq!(Int8Array::try_from(t).err(), Some(TryFromTypedArrayError));
}

#[test]
fn extraction_succeeds_for_the_own_kind_only() {
    for want in 0..9usize {
        let mut got = Vec::new();
        for t in one_of_each() {
            let ok = match want {
                0 => Int8Array::try_from(t).map(|_| ()),
                1 => Uint8Array::try_from(t).map(|_| ()),
                2 => Uint8ClampedArray::try_from(t).map(|_| ()),
                3 => Int16Array::try_from(t).map(|_| ()),
                4 => Uint16Array::try_from(t).map(|_| ()),
                5 => Int32Array::try_from(t).map(|_| ()),
                6 => Uint32Array::try_from(t).map(|_| ()),
                7 => Float32Array::try_from(t).map(|_| ()),
                _ => Float64Array::try_from(t).map(|_| ()),
            };
            got.push(ok);
        }
        for (have, ok) in got.iter().enumerate() {
            if have == want {
                assert_eq!(*ok, Ok(()));
            } else {
                assert_eq!(*ok, Err(TryFromTypedArrayError));
            }
        }
    }
}

#[test]
fn try_into_is_the_extraction() {
    let t = TypedArray::from(JsValue::NULL.unchecked_into::<Uint16Array>());
    let r: Result<Uint16Array, TryFromTypedArrayError> = t.try_into();
    assert!(r.is_ok());
    let t = TypedArray::from(JsValue::NULL.unchecked_into::<Uint16Array>());
    let r: Result<Int32Array, TryFromTypedArrayError> = t.try_into();
    assert_eq!(r.err(), Some(TryFromTypedArrayError));
}

#[test]
fn a_handle_widens_to_the_value_it_was_made_of() {
    let t = TypedArray::from(JsValue::TRUE.unchecked_into::<Int8Array>());
    let v: &JsValue = t.as_ref();
    assert_eq!(index(v), index(&JsValue::TRUE));
    assert_ne!(index(v), index(&JsValue::FALSE));

    let t = TypedArray::from(JsValue::FALSE.unchecked_into::<Uint8ClampedArray>());
    let v: &JsValue = t.as_ref();
    assert_eq!(index(v), index(&JsValue::FALSE));

    let t = TypedArray::from(JsValue::UNDEFINED.unchecked_into::<Float32Array>());
    let v: &JsValue = t.as_ref();
    assert_eq!(index(v), index(&JsValue::UNDEFINED));
}

#[test]
fn the_four_values_are_told_apart() {
    let all = [
        index(&JsValue::UNDEFINED),
        index(&JsValue::NULL),
        index(&JsValue::TRUE),
        index(&JsValue::FALSE),
    ];
    for i in 0..4 {
        for j in 0..4 {
            assert_eq!(all[i] == all[j], i == j);
        }
    }
}

#[test]
fn every_kind_widens_to_its_value() {
    for (t, made_of) in one_of_each_with_index() {
        let v: &JsValue = t.as_ref();
        assert_eq!(index(v), made_of);
    }
}

#[test]
fn every_kind_widens_to_an_object_of_its_value() {
    for (t, made_of) in one_of_each_with_index() {
        let o: &Object = t.as_ref();
        let v: &JsValue = o.as_ref();
        assert_eq!(index(v), made_of);
    }
}

#[test]
fn every_kind_derefs_to_an_object_of_its_value() {
    for (t, made_of) in one_of_each_with_index() {
        let o: &Object = &t;
        let v: &JsValue = o.as_ref();
        assert_eq!(index(v), made_of);
    }
}

#[test]
fn promotion_then_extraction_gives_the_same_array() {
    // Nine times: into the handle, out again, and still the value it was.
    let a = JsValue::TRUE.unchecked_into::<Int8Array>();
    let a = Int8Array::try_from(TypedArray::from(a)).ok().unwrap();
    assert_eq!(index(a.as_ref()), index(&JsValue::TRUE));
    let a = JsValue::FALSE.unchecked_into::<Uint8Array>();
    let a = Uint8Array::try_from(TypedArray::from(a)).ok().unwrap();
    assert_eq!(index(a.as_ref()), index(&JsValue::FALSE));
    let a = JsValue::NULL.unchecked_into::<Uint8ClampedArray>();
    let a = Uint8ClampedArray::try_from(TypedArray::from(a)).ok().unwrap();
    assert_eq!(index(a.as_ref()), index(&JsValue::NULL));
    let a = JsValue::UNDEFINED.unchecked_into::<Int16Array>();
    let a = Int16Array::try_from(TypedArray::from(a)).ok().unwrap();
    assert_eq!(index(a.as_ref()), index(&JsValue::UNDEFINED));
    let a = JsValue::TRUE.unchecked_into::<Uint16Array>();
    let a = Uint16Array::try_from(TypedArray::from(a)).ok().unwrap();
    assert_eq!(index(a.as_ref()), index(&JsValue::TRUE));
    let a = JsValue::FALSE.unchecked_into::<Int32Array>();
    let a = Int32Array::try_from(TypedArray::from(a)).ok().unwrap();
    assert_eq!(index(a.as_ref()), index(&JsValue::FALSE));
    let a = JsValue::NULL.unchecked_into::<Uint32Array>();
    let a = Uint32Array::try_from(TypedArray::from(a)).ok().unwrap();
    assert_eq!(index(a.as_ref()), index(&JsValue::NULL));
    let a = JsValue::UNDEFINED.unchecked_into::<Float32Array>();
    let a = Float32Array::try_from(TypedArray::from(a)).ok().unwrap();
    assert_eq!(index(a.as_ref()), index(&JsValue::UNDEFINED));
    let a = JsValue::TRUE.unchecked_into::<Float64Array>();
    let a = Float64Array::try_from(TypedArray::from(a)).ok().unwrap();
    assert_eq!(index(a.as_ref()), index(&JsValue::TRUE));
}

#[test]
fn a_handle_widens_to_an_object_of_the_same_value() {
    let t = TypedArray::from(JsValue::TRUE.unchecked_into::<Int32Array>());
    let o: &Object = t.as_ref();
    let v: &JsValue = o.as_ref();
    assert_eq!(index(v), index(&JsValue::TRUE));
    for t in one_of_each() {
        let o: &Object = t.as_ref();
        let v: &JsValue = o.as_ref();
        assert_eq!(index(v), index(&JsValue::NULL));
    }
}

#[test]
fn deref_gives_the_object_that_as_ref_gives() {
    let t = TypedArray::from(JsValue::FALSE.unchecked_into::<Uint8Array>());
    let by_deref: &Object = &t;
    let by_as_ref: &Object = t.as_ref();
    assert!(std::ptr::eq(by_deref, by_as_ref));
    let v: &JsValue = by_deref.as_ref();
    assert_eq!(index(v), index(&JsValue::FALSE));
}
