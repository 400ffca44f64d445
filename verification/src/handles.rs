//! The handles that cross the boundary. Each is a token that only the host
//! can interpret; the native side copies it, compares it and hands it back.

use vstd::prelude::*;
use crate::text::{tagged, tagged_text};

verus! {

/// An arbitrary object of the host runtime.
#[derive(Clone, Copy, Debug, PartialEq, Eq, Hash, Structural)]
pub struct Value(pub u64);

/// The stable identity that the host derives from the content of a `Value`.
#[derive(Clone, Copy, Debug, PartialEq, Eq, Hash, Structural)]
pub struct Key(pub u64);

/// A type of the host runtime.
#[derive(Clone, Copy, Debug, PartialEq, Eq, Hash, Structural)]
pub struct TypeId(pub u64);

/// A content-addressed digest, which the host can render as text.
#[derive(Clone, Copy, Debug, PartialEq, Eq, Hash, Structural)]
pub struct Id(pub u64);

/// A named attribute of a `Value`.
#[derive(Clone, Copy, Debug, PartialEq, Eq, Hash, Structural)]
pub struct Field(pub u64);

impl Value {
    /// The debug form of this handle.
    pub open spec fn debug_spec(&self) -> Seq<char> {
        tagged_text(seq!['V', 'a', 'l', 'u', 'e'], self.0 as nat)
    }

    /// Writes the debug form of this handle.
    pub fn debug_text(&self) -> (s: String)
        ensures
            s@ == self.debug_spec(),
    {
        proof {
            reveal_strlit("Value");
        }
        tagged("Value", self.0)
    }
}

impl Id {
    /// The debug form of this handle.
    pub open spec fn debug_spec(&self) -> Seq<char> {
        tagged_text(seq!['I', 'd'], self.0 as nat)
    }

    /// Writes the debug form of this handle.
    pub fn debug_text(&self) -> (s: String)
        ensures
            s@ == self.debug_spec(),
    {
        proof {
            reveal_strlit("Id");
        }
        tagged("Id", self.0)
    }
}

} // verus!
