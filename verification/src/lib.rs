//! One handle for every typed array of `js_sys`.
//!
//! JavaScript has nine typed arrays that share `buffer`, `length`,
//! `byteLength`, `byteOffset`, `subarray`, `slice` and `set`, and `js_sys`
//! binds each as a type of its own, with nothing in common but `Object`.
//! [`TypedArray`] holds any one of them, remembers which, and forwards the
//! shared operations to it. It is made of an array ([`convert`]) or of a
//! value of unknown type ([`classify`]), and gives the array back on
//! request.
//!
//! The host is not modelled. Where a contract speaks of what the host does,
//! it says which call on the host gave the result and what the call was
//! made on; of the answer itself it claims nothing that the host may change
//! between two calls. What is proved is what the handle adds: that it keeps
//! the kind, hands every call to the array inside, asks the host in a fixed
//! order, and never loses the value it was given. Where the host can fail,
//! the failure comes back as a [`HostError`].

pub mod classify;
pub mod convert;
pub mod error;
pub mod handle;
pub mod host;
pub mod invoke;
pub mod kind;

pub use crate::error::{HostError, TryFromJsValueError, TryFromTypedArrayError};
pub use crate::handle::TypedArray;
pub use crate::kind::ElementKind;
