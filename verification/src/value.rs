//! Values that travel between contracts without a static type.
use vstd::prelude::*;
use crate::address::{Address, Bytes32};

verus! {

/// An argument or a result of a call from one contract into another.
#[derive(Debug)]
pub enum Value {
    /// Nothing: what a function without a result returns.
    Void,
    Bool(bool),
    U32(u32),
    Text(String),
    Address(Address),
    Bytes(Bytes32),
    /// A value that this library hands on without looking into it.
    Opaque,
}

impl Value {
    /// The text that the value holds, if it is a text.
    pub open spec fn text(self) -> Option<Seq<char>> {
        match self {
            Value::Text(text) => Some(text@),
            _ => None,
        }
    }

    /// A copy of the text that the value holds, if it is a text.
    pub fn as_text(&self) -> (text: Option<String>)
        ensures
            match self.text() {
                Some(held) => text matches Some(copy) && copy@ == held,
                None => text is None,
            },
    {
        match self {
            Value::Text(text) => Some(text.clone()),
            _ => None,
        }
    }

    /// Whether the value is `Void`.
    pub fn is_void(&self) -> (void: bool)
        ensures
            void == (self is Void),
    {
        match self {
            Value::Void => true,
            _ => false,
        }
    }
}

/// How the call of a function on another contract ended.
#[derive(Debug)]
pub enum Invoked {
    /// The function ran to its end and returned this value.
    Returned(Value),
    /// The function failed; nothing that it did has lasted.
    Failed,
}

} // verus!
