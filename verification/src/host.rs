//! The host's side of the boundary.

use vstd::prelude::*;
use crate::buffer::{UTF8Buffer, ValueBuffer};
use crate::handles::{Field, Id, Key, TypeId, Value};

verus! {

/// The operations that the host runtime implements, one per callback. The
/// host supplies them once, when the bridge is made.
///
/// Nothing is asked of an implementation but that it returns. What a method
/// returns is the host's business, and the bridge relies on none of it.
pub trait Host {
    /// The identity of a value.
    fn key_for(&self, val: &Value) -> Key;

    /// The value that an identity stands for.
    fn val_for(&self, key: &Key) -> Value;

    /// Whether `cls` is a subclass of `super_cls`.
    fn issubclass(&self, cls: &TypeId, super_cls: &TypeId) -> bool;

    /// Stores the values, in order, as one host-side collection. With `merge`
    /// the host flattens values that are collections themselves.
    fn store_list(&self, values: &[Value], merge: bool) -> Value;

    /// The content of one field of a value, coerced to the given type.
    fn project(&self, value: &Value, field: &Field, type_id: &TypeId) -> Value;

    /// The content of a field that holds several values.
    fn project_multi(&self, value: &Value, field: &Field) -> ValueBuffer;

    /// A digest as text for people to read.
    fn id_to_str(&self, digest: &Id) -> UTF8Buffer;

    /// A value as text for people to read.
    fn val_to_str(&self, val: &Value) -> UTF8Buffer;
}

} // verus!
