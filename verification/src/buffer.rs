//! Buffers: the variable-length answers of the host.
//!
//! A buffer is a run of elements together with its element count. It has one
//! owner at every instant. The host gives it up when it answers, and the
//! native side takes it over exactly once, by turning it into a sequence of
//! its own: the elements are moved, not copied, and the buffer is gone
//! afterwards.

use vstd::prelude::*;
use crate::handles::Value;

verus! {

/// A run of value handles that the host hands over.
pub struct ValueBuffer {
    values: Vec<Value>,
}

/// A run of bytes that the host hands over, meant as UTF-8 text.
pub struct UTF8Buffer {
    bytes: Vec<u8>,
}

impl View for ValueBuffer {
    type V = Seq<Value>;

    closed spec fn view(&self) -> Seq<Value> {
        self.values@
    }
}

impl View for UTF8Buffer {
    type V = Seq<u8>;

    closed spec fn view(&self) -> Seq<u8> {
        self.bytes@
    }
}

impl ValueBuffer {
    /// Gives up a run of handles: the buffer holds them in the order given.
    pub fn new(values: Vec<Value>) -> (buf: ValueBuffer)
        ensures
            buf@ == values@,
    {
        ValueBuffer { values }
    }

    /// The element count of the buffer.
    pub fn values_len(&self) -> (n: u64)
        ensures
            n == self@.len(),
    {
        self.values.len() as u64
    }

    /// Takes the buffer over: as many elements as it counts, in the order in
    /// which the host supplied them.
    pub fn into_vec(self) -> (values: Vec<Value>)
        ensures
            values@ == self@,
    {
        self.values
    }
}

impl UTF8Buffer {
    /// Gives up a run of bytes: the buffer holds them in the order given.
    pub fn new(bytes: Vec<u8>) -> (buf: UTF8Buffer)
        ensures
            buf@ == bytes@,
    {
        UTF8Buffer { bytes }
    }

    /// The element count of the buffer.
    pub fn str_len(&self) -> (n: u64)
        ensures
            n == self@.len(),
    {
        self.bytes.len() as u64
    }

    /// Takes the buffer over: as many bytes as it counts, in the order in
    /// which the host supplied them.
    pub fn into_bytes(self) -> (bytes: Vec<u8>)
        ensures
            bytes@ == self@,
    {
        self.bytes
    }
}

} // verus!
