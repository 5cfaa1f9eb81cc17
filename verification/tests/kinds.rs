use typed_array::ElementKind;

#[test]
fn widths_are_those_of_the_elements() {
    assert_eq!(ElementKind::Int8.width(), 1);
    assert_eq!(ElementKind::Uint8.width(), 1);
    assert_eq!(ElementKind::Uint8Clamped.width(), 1);
    assert_eq!(ElementKind::Int16.width(), 2);
    assert_eq!(ElementKind::Uint16.width(), 2);
    assert_eq!(ElementKind::Int32.width(), 4);
    assert_eq!(ElementKind::Uint32.width(), 4);
    assert_eq!(ElementKind::Float32.width(), 4);
    assert_eq!(ElementKind::Float64.width(), 8);
}

#[test]
fn classification_starts_with_int8() {
    assert_eq!(ElementKind::first(), ElementKind::Int8);
}

#[test]
fn classification_goes_through_the_kinds_in_order() {
    let mut seen = vec![ElementKind::first()];
    let mut kind = ElementKind::first();
    while let Some(next) = kind.next() {
        assert!(seen.len() < 9);
        seen.push(next);
        kind = next;
    }
    assert_eq!(
        seen,
        vec![
            ElementKind::Int8,
            ElementKind::Uint8,
            ElementKind::Uint8Clamped,
            ElementKind::Int16,
            ElementKind::Uint16,
            ElementKind::Int32,
            ElementKind::Uint32,
            ElementKind::Float32,
            ElementKind::Float64,
        ]
    );
}

#[test]
fn nothing_comes_after_float64() {
    assert_eq!(ElementKind::Float64.next(), None);
    assert_eq!(ElementKind::Float32.next(), Some(ElementKind::Float64));
    assert_eq!(ElementKind::Int8.next(), Some(ElementKind::Uint8));
}
