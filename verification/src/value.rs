//! The element type of the constant pool.

use vstd::prelude::*;

verus! {

/// A constant value. The single current kind is a number; the enumeration is
/// expected to grow without changing the chunk or disassembler contracts.
///
/// The inspection layer only ever reads a value's rendered text, so a number
/// is carried in its decimal form; whatever computes with numbers converts
/// at the boundary.
#[derive(Debug)]
pub enum Value {
    Number(String),
}

impl View for Value {
    type V = Seq<char>;

    /// A value is viewed as its rendered text.
    open spec fn view(&self) -> Seq<char> {
        match self {
            Value::Number(text) => text@,
        }
    }
}

impl Value {
    /// The rendered text of the value.
    pub fn as_text(&self) -> (s: &str)
        ensures
            s@ == self@,
    {
        match self {
            Value::Number(text) => text.as_str(),
        }
    }
}

} // verus!
