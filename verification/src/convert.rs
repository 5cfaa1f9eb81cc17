//! From each typed array to the handle, and from the handle back to each.
//!
//! To make a handle of an array is to put the array in the variant of its
//! kind. To take an array of one kind out of a handle succeeds where the
//! handle is of that kind, and gives the array that was put in.

use crate::error::TryFromTypedArrayError;
use crate::handle::TypedArray;
use crate::kind::ElementKind;
use js_sys::{
    Float32Array, Float64Array, Int16Array, Int32Array, Int8Array, Uint16Array, Uint32Array,
    Uint8Array, Uint8ClampedArray,
};
use vstd::prelude::*;
use vstd::std_specs::convert::{FromSpec, FromSpecImpl, TryFromSpec, TryFromSpecImpl};

verus! {

impl From<Int8Array> for TypedArray {
    /// The handle that holds `i`.
    fn from(i: Int8Array) -> (r: Self)
        ensures
            r == TypedArray::Int8Array(i),
    {
        TypedArray::Int8Array(i)
    }
}

impl FromSpecImpl<Int8Array> for TypedArray {
    open spec fn obeys_from_spec() -> bool {
        true
    }

    open spec fn from_spec(i: Int8Array) -> Self {
        TypedArray::Int8Array(i)
    }
}

impl TryFrom<TypedArray> for Int8Array {
    type Error = TryFromTypedArrayError;

    /// The array inside `i`, where `i` holds an `Int8Array`. The handle is used
    /// up either way.
    fn try_from(i: TypedArray) -> (r: Result<Self, Self::Error>)
        ensures
            i matches TypedArray::Int8Array(a) ==> r == Ok::<Self, Self::Error>(a),
            i !is Int8Array ==> r == Err::<Self, Self::Error>(TryFromTypedArrayError),
    {
        if let TypedArray::Int8Array(inner) = i {
            Ok(inner)
        } else {
            Err(TryFromTypedArrayError)
        }
    }
}

impl TryFromSpecImpl<TypedArray> for Int8Array {
    open spec fn obeys_try_from_spec() -> bool {
        true
    }

    open spec fn try_from_spec(i: TypedArray) -> Result<Self, Self::Error> {
        match i {
            TypedArray::Int8Array(inner) => Ok(inner),
            _ => Err(TryFromTypedArrayError),
        }
    }
}

impl From<Uint8Array> for TypedArray {
    /// The handle that holds `i`.
    fn from(i: Uint8Array) -> (r: Self)
        ensures
            r == TypedArray::Uint8Array(i),
    {
        TypedArray::Uint8Array(i)
    }
}

impl FromSpecImpl<Uint8Array> for TypedArray {
    open spec fn obeys_from_spec() -> bool {
        true
    }

    open spec fn from_spec(i: Uint8Array) -> Self {
        TypedArray::Uint8Array(i)
    }
}

impl TryFrom<TypedArray> for Uint8Array {
    type Error = TryFromTypedArrayError;

    /// The array inside `i`, where `i` holds a `Uint8Array`. The handle is used
    /// up either way.
    fn try_from(i: TypedArray) -> (r: Result<Self, Self::Error>)
        ensures
            i matches TypedArray::Uint8Array(a) ==> r == Ok::<Self, Self::Error>(a),
            i !is Uint8Array ==> r == Err::<Self, Self::Error>(TryFromTypedArrayError),
    {
        if let TypedArray::Uint8Array(inner) = i {
            Ok(inner)
        } else {
            Err(TryFromTypedArrayError)
        }
    }
}

impl TryFromSpecImpl<TypedArray> for Uint8Array {
    open spec fn obeys_try_from_spec() -> bool {
        true
    }

    open spec fn try_from_spec(i: TypedArray) -> Result<Self, Self::Error> {
        match i {
            TypedArray::Uint8Array(inner) => Ok(inner),
            _ => Err(TryFromTypedArrayError),
        }
    }
}

impl From<Uint8ClampedArray> for TypedArray {
    /// The handle that holds `i`.
    fn from(i: Uint8ClampedArray) -> (r: Self)
        ensures
            r == TypedArray::Uint8ClampedArray(i),
    {
        TypedArray::Uint8ClampedArray(i)
    }
}

impl FromSpecImpl<Uint8ClampedArray> for TypedArray {
    open spec fn obeys_from_spec() -> bool {
        true
    }

    open spec fn from_spec(i: Uint8ClampedArray) -> Self {
        TypedArray::Uint8ClampedArray(i)
    }
}

impl TryFrom<TypedArray> for Uint8ClampedArray {
    type Error = TryFromTypedArrayError;

    /// The array inside `i`, where `i` holds a `Uint8ClampedArray`. The handle is used
    /// up either way.
    fn try_from(i: TypedArray) -> (r: Result<Self, Self::Error>)
        ensures
            i matches TypedArray::Uint8ClampedArray(a) ==> r == Ok::<Self, Self::Error>(a),
            i !is Uint8ClampedArray ==> r == Err::<Self, Self::Error>(TryFromTypedArrayError),
    {
        if let TypedArray::Uint8ClampedArray(inner) = i {
            Ok(inner)
        } else {
            Err(TryFromTypedArrayError)
        }
    }
}

impl TryFromSpecImpl<TypedArray> for Uint8ClampedArray {
    open spec fn obeys_try_from_spec() -> bool {
        true
    }

    open spec fn try_from_spec(i: TypedArray) -> Result<Self, Self::Error> {
        match i {
            TypedArray::Uint8ClampedArray(inner) => Ok(inner),
            _ => Err(TryFromTypedArrayError),
        }
    }
}

impl From<Int16Array> for TypedArray {
    /// The handle that holds `i`.
    fn from(i: Int16Array) -> (r: Self)
        ensures
            r == TypedArray::Int16Array(i),
    {
        TypedArray::Int16Array(i)
    }
}

impl FromSpecImpl<Int16Array> for TypedArray {
    open spec fn obeys_from_spec() -> bool {
        true
    }

    open spec fn from_spec(i: Int16Array) -> Self {
        TypedArray::Int16Array(i)
    }
}

impl TryFrom<TypedArray> for Int16Array {
    type Error = TryFromTypedArrayError;

    /// The array inside `i`, where `i` holds an `Int16Array`. The handle is used
    /// up either way.
    fn try_from(i: TypedArray) -> (r: Result<Self, Self::Error>)
        ensures
            i matches TypedArray::Int16Array(a) ==> r == Ok::<Self, Self::Error>(a),
            i !is Int16Array ==> r == Err::<Self, Self::Error>(TryFromTypedArrayError),
    {
        if let TypedArray::Int16Array(inner) = i {
            Ok(inner)
        } else {
            Err(TryFromTypedArrayError)
        }
    }
}

impl TryFromSpecImpl<TypedArray> for Int16Array {
    open spec fn obeys_try_from_spec() -> bool {
        true
    }

    open spec fn try_from_spec(i: TypedArray) -> Result<Self, Self::Error> {
        match i {
            TypedArray::Int16Array(inner) => Ok(inner),
            _ => Err(TryFromTypedArrayError),
        }
    }
}

impl From<Uint16Array> for TypedArray {
    /// The handle that holds `i`.
    fn from(i: Uint16Array) -> (r: Self)
        ensures
            r == TypedArray::Uint16Array(i),
    {
        TypedArray::Uint16Array(i)
    }
}

impl FromSpecImpl<Uint16Array> for TypedArray {
    open spec fn obeys_from_spec() -> bool {
        true
    }

    open spec fn from_spec(i: Uint16Array) -> Self {
        TypedArray::Uint16Array(i)
    }
}

impl TryFrom<TypedArray> for Uint16Array {
    type Error = TryFromTypedArrayError;

    /// The array inside `i`, where `i` holds a `Uint16Array`. The handle is used
    /// up either way.
    fn try_from(i: TypedArray) -> (r: Result<Self, Self::Error>)
        ensures
            i matches TypedArray::Uint16Array(a) ==> r == Ok::<Self, Self::Error>(a),
            i !is Uint16Array ==> r == Err::<Self, Self::Error>(TryFromTypedArrayError),
    {
        if let TypedArray::Uint16Array(inner) = i {
            Ok(inner)
        } else {
            Err(TryFromTypedArrayError)
        }
    }
}

impl TryFromSpecImpl<TypedArray> for Uint16Array {
    open spec fn obeys_try_from_spec() -> bool {
        true
    }

    open spec fn try_from_spec(i: TypedArray) -> Result<Self, Self::Error> {
        match i {
            TypedArray::Uint16Array(inner) => Ok(inner),
            _ => Err(TryFromTypedArrayError),
        }
    }
}

impl From<Int32Array> for TypedArray {
    /// The handle that holds `i`.
    fn from(i: Int32Array) -> (r: Self)
        ensures
            r == TypedArray::Int32Array(i),
    {
        TypedArray::Int32Array(i)
    }
}

impl FromSpecImpl<Int32Array> for TypedArray {
    open spec fn obeys_from_spec() -> bool {
        true
    }

    open spec fn from_spec(i: Int32Array) -> Self {
        TypedArray::Int32Array(i)
    }
}

impl TryFrom<TypedArray> for Int32Array {
    type Error = TryFromTypedArrayError;

    /// The array inside `i`, where `i` holds an `Int32Array`. The handle is used
    /// up either way.
    fn try_from(i: TypedArray) -> (r: Result<Self, Self::Error>)
        ensures
            i matches TypedArray::Int32Array(a) ==> r == Ok::<Self, Self::Error>(a),
            i !is Int32Array ==> r == Err::<Self, Self::Error>(TryFromTypedArrayError),
    {
        if let TypedArray::Int32Array(inner) = i {
            Ok(inner)
        } else {
            Err(TryFromTypedArrayError)
        }
    }
}

impl TryFromSpecImpl<TypedArray> for Int32Array {
    open spec fn obeys_try_from_spec() -> bool {
        true
    }

    open spec fn try_from_spec(i: TypedArray) -> Result<Self, Self::Error> {
        match i {
            TypedArray::Int32Array(inner) => Ok(inner),
            _ => Err(TryFromTypedArrayError),
        }
    }
}

impl From<Uint32Array> for TypedArray {
    /// The handle that holds `i`.
    fn from(i: Uint32Array) -> (r: Self)
        ensures
            r == TypedArray::Uint32Array(i),
    {
        TypedArray::Uint32Array(i)
    }
}

impl FromSpecImpl<Uint32Array> for TypedArray {
    open spec fn obeys_from_spec() -> bool {
        true
    }

    open spec fn from_spec(i: Uint32Array) -> Self {
        TypedArray::Uint32Array(i)
    }
}

impl TryFrom<TypedArray> for Uint32Array {
    type Error = TryFromTypedArrayError;

    /// The array inside `i`, where `i` holds a `Uint32Array`. The handle is used
    /// up either way.
    fn try_from(i: TypedArray) -> (r: Result<Self, Self::Error>)
        ensures
            i matches TypedArray::Uint32Array(a) ==> r == Ok::<Self, Self::Error>(a),
            i !is Uint32Array ==> r == Err::<Self, Self::Error>(TryFromTypedArrayError),
    {
        if let TypedArray::Uint32Array(inner) = i {
            Ok(inner)
        } else {
            Err(TryFromTypedArrayError)
        }
    }
}

impl TryFromSpecImpl<TypedArray> for Uint32Array {
    open spec fn obeys_try_from_spec() -> bool {
        true
    }

    open spec fn try_from_spec(i: TypedArray) -> Result<Self, Self::Error> {
        match i {
            TypedArray::Uint32Array(inner) => Ok(inner),
            _ => Err(TryFromTypedArrayError),
        }
    }
}

impl From<Float32Array> for TypedArray {
    /// The handle that holds `i`.
    fn from(i: Float32Array) -> (r: Self)
        ensures
            r == TypedArray::Float32Array(i),
    {
        TypedArray::Float32Array(i)
    }
}

impl FromSpecImpl<Float32Array> for TypedArray {
    open spec fn obeys_from_spec() -> bool {
        true
    }

    open spec fn from_spec(i: Float32Array) -> Self {
        TypedArray::Float32Array(i)
    }
}

impl TryFrom<TypedArray> for Float32Array {
    type Error = TryFromTypedArrayError;

    /// The array inside `i`, where `i` holds a `Float32Array`. The handle is used
    /// up either way.
    fn try_from(i: TypedArray) -> (r: Result<Self, Self::Error>)
        ensures
            i matches TypedArray::Float32Array(a) ==> r == Ok::<Self, Self::Error>(a),
            i !is Float32Array ==> r == Err::<Self, Self::Error>(TryFromTypedArrayError),
    {
        if let TypedArray::Float32Array(inner) = i {
            Ok(inner)
        } else {
            Err(TryFromTypedArrayError)
        }
    }
}

impl TryFromSpecImpl<TypedArray> for Float32Array {
    open spec fn obeys_try_from_spec() -> bool {
        true
    }

    open spec fn try_from_spec(i: TypedArray) -> Result<Self, Self::Error> {
        match i {
            TypedArray::Float32Array(inner) => Ok(inner),
            _ => Err(TryFromTypedArrayError),
        }
    }
}

impl From<Float64Array> for TypedArray {
    /// The handle that holds `i`.
    fn from(i: Float64Array) -> (r: Self)
        ensures
            r == TypedArray::Float64Array(i),
    {
        TypedArray::Float64Array(i)
    }
}

impl FromSpecImpl<Float64Array> for TypedArray {
    open spec fn obeys_from_spec() -> bool {
        true
    }

    open spec fn from_spec(i: Float64Array) -> Self {
        TypedArray::Float64Array(i)
    }
}

impl TryFrom<TypedArray> for Float64Array {
    type Error = TryFromTypedArrayError;

    /// The array inside `i`, where `i` holds a `Float64Array`. The handle is used
    /// up either way.
    fn try_from(i: TypedArray) -> (r: Result<Self, Self::Error>)
        ensures
            i matches TypedArray::Float64Array(a) ==> r == Ok::<Self, Self::Error>(a),
            i !is Float64Array ==> r == Err::<Self, Self::Error>(TryFromTypedArrayError),
    {
        if let TypedArray::Float64Array(inner) = i {
            Ok(inner)
        } else {
            Err(TryFromTypedArrayError)
        }
    }
}

impl TryFromSpecImpl<TypedArray> for Float64Array {
    open spec fn obeys_try_from_spec() -> bool {
        true
    }

    open spec fn try_from_spec(i: TypedArray) -> Result<Self, Self::Error> {
        match i {
            TypedArray::Float64Array(inner) => Ok(inner),
            _ => Err(TryFromTypedArrayError),
        }
    }
}

impl TypedArray {
    /// Taking out what was put in gives it back: a handle is made of the
    /// array inside it, and taking an array of the handle's own kind out of
    /// it gives that array.
    pub proof fn lemma_round_trip(self)
        ensures
            match self {
                TypedArray::Int8Array(x) => {
                    &&& self == <TypedArray as FromSpec<Int8Array>>::from_spec(x)
                    &&& <Int8Array as TryFromSpec<TypedArray>>::try_from_spec(self) == Ok::<
                        Int8Array,
                        TryFromTypedArrayError,
                    >(x)
                },
                TypedArray::Uint8Array(x) => {
                    &&& self == <TypedArray as FromSpec<Uint8Array>>::from_spec(x)
                    &&& <Uint8Array as TryFromSpec<TypedArray>>::try_from_spec(self) == Ok::<
                        Uint8Array,
                        TryFromTypedArrayError,
                    >(x)
                },
                TypedArray::Uint8ClampedArray(x) => {
                    &&& self == <TypedArray as FromSpec<Uint8ClampedArray>>::from_spec(x)
                    &&& <Uint8ClampedArray as TryFromSpec<TypedArray>>::try_from_spec(self) == Ok::<
                        Uint8ClampedArray,
                        TryFromTypedArrayError,
                    >(x)
                },
                TypedArray::Int16Array(x) => {
                    &&& self == <TypedArray as FromSpec<Int16Array>>::from_spec(x)
                    &&& <Int16Array as TryFromSpec<TypedArray>>::try_from_spec(self) == Ok::<
                        Int16Array,
                        TryFromTypedArrayError,
                    >(x)
                },
                TypedArray::Uint16Array(x) => {
                    &&& self == <TypedArray as FromSpec<Uint16Array>>::from_spec(x)
                    &&& <Uint16Array as TryFromSpec<TypedArray>>::try_from_spec(self) == Ok::<
                        Uint16Array,
                        TryFromTypedArrayError,
                    >(x)
                },
                TypedArray::Int32Array(x) => {
                    &&& self == <TypedArray as FromSpec<Int32Array>>::from_spec(x)
                    &&& <Int32Array as TryFromSpec<TypedArray>>::try_from_spec(self) == Ok::<
                        Int32Array,
                        TryFromTypedArrayError,
                    >(x)
                },
                TypedArray::Uint32Array(x) => {
                    &&& self == <TypedArray as FromSpec<Uint32Array>>::from_spec(x)
                    &&& <Uint32Array as TryFromSpec<TypedArray>>::try_from_spec(self) == Ok::<
                        Uint32Array,
                        TryFromTypedArrayError,
                    >(x)
                },
                TypedArray::Float32Array(x) => {
                    &&& self == <TypedArray as FromSpec<Float32Array>>::from_spec(x)
                    &&& <Float32Array as TryFromSpec<TypedArray>>::try_from_spec(self) == Ok::<
                        Float32Array,
                        TryFromTypedArrayError,
                    >(x)
                },
                TypedArray::Float64Array(x) => {
                    &&& self == <TypedArray as FromSpec<Float64Array>>::from_spec(x)
                    &&& <Float64Array as TryFromSpec<TypedArray>>::try_from_spec(self) == Ok::<
                        Float64Array,
                        TryFromTypedArrayError,
                    >(x)
                },
            },
    {
    }

    /// Taking an array of one kind out of a handle of another kind fails, and
    /// taking one of the handle's own kind succeeds.
    pub proof fn lemma_extraction_by_kind(self)
        ensures
            self.kind() == ElementKind::Int8
                <==> <Int8Array as TryFromSpec<TypedArray>>::try_from_spec(self) is Ok,
            self.kind() != ElementKind::Int8
                ==> <Int8Array as TryFromSpec<TypedArray>>::try_from_spec(self)
                == Err::<Int8Array, TryFromTypedArrayError>(TryFromTypedArrayError),
            self.kind() == ElementKind::Uint8
                <==> <Uint8Array as TryFromSpec<TypedArray>>::try_from_spec(self) is Ok,
            self.kind() != ElementKind::Uint8
                ==> <Uint8Array as TryFromSpec<TypedArray>>::try_from_spec(self)
                == Err::<Uint8Array, TryFromTypedArrayError>(TryFromTypedArrayError),
            self.kind() == ElementKind::Uint8Clamped
                <==> <Uint8ClampedArray as TryFromSpec<TypedArray>>::try_from_spec(self) is Ok,
            self.kind() != ElementKind::Uint8Clamped
                ==> <Uint8ClampedArray as TryFromSpec<TypedArray>>::try_from_spec(self)
                == Err::<Uint8ClampedArray, TryFromTypedArrayError>(TryFromTypedArrayError),
            self.kind() == ElementKind::Int16
                <==> <Int16Array as TryFromSpec<TypedArray>>::try_from_spec(self) is Ok,
            self.kind() != ElementKind::Int16
                ==> <Int16Array as TryFromSpec<TypedArray>>::try_from_spec(self)
                == Err::<Int16Array, TryFromTypedArrayError>(TryFromTypedArrayError),
            self.kind() == ElementKind::Uint16
                <==> <Uint16Array as TryFromSpec<TypedArray>>::try_from_spec(self) is Ok,
            self.kind() != ElementKind::Uint16
                ==> <Uint16Array as TryFromSpec<TypedArray>>::try_from_spec(self)
                == Err::<Uint16Array, TryFromTypedArrayError>(TryFromTypedArrayError),
            self.kind() == ElementKind::Int32
                <==> <Int32Array as TryFromSpec<TypedArray>>::try_from_spec(self) is Ok,
            self.kind() != ElementKind::Int32
                ==> <Int32Array as TryFromSpec<TypedArray>>::try_from_spec(self)
                == Err::<Int32Array, TryFromTypedArrayError>(TryFromTypedArrayError),
            self.kind() == ElementKind::Uint32
                <==> <Uint32Array as TryFromSpec<TypedArray>>::try_from_spec(self) is Ok,
            self.kind() != ElementKind::Uint32
                ==> <Uint32Array as TryFromSpec<TypedArray>>::try_from_spec(self)
                == Err::<Uint32Array, TryFromTypedArrayError>(TryFromTypedArrayError),
            self.kind() == ElementKind::Float32
                <==> <Float32Array as TryFromSpec<TypedArray>>::try_from_spec(self) is Ok,
            self.kind() != ElementKind::Float32
                ==> <Float32Array as TryFromSpec<TypedArray>>::try_from_spec(self)
                == Err::<Float32Array, TryFromTypedArrayError>(TryFromTypedArrayError),
            self.kind() == ElementKind::Float64
                <==> <Float64Array as TryFromSpec<TypedArray>>::try_from_spec(self) is Ok,
            self.kind() != ElementKind::Float64
                ==> <Float64Array as TryFromSpec<TypedArray>>::try_from_spec(self)
                == Err::<Float64Array, TryFromTypedArrayError>(TryFromTypedArrayError),
    {
    }
}

} // verus!
