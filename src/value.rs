//! Dynamic values: what the scripting side hands over and gets back.

use vstd::prelude::*;

use crate::registry::ObjectId;

verus! {

/// A scripting-side number, held as what integer and floating-point
/// descriptors read of it.
#[derive(Debug, Clone, Copy, PartialEq, Eq, Structural)]
pub enum Number {
    /// An integral number.
    Integer(i128),
    /// Any other number: its IEEE-754 binary64 bits, and its value truncated
    /// toward zero (saturated at the bounds of `i128`).
    Real { bits: u64, truncated: i128 },
}

/// The integer an integer descriptor reads from a number.
pub open spec fn int_of(n: Number) -> int {
    match n {
        Number::Integer(i) => i as int,
        Number::Real { truncated, .. } => truncated as int,
    }
}

impl Number {
    pub fn as_integer(&self) -> (r: i128)
        ensures
            r as int == int_of(*self),
    {
        match self {
            Number::Integer(i) => *i,
            Number::Real { truncated, .. } => *truncated,
        }
    }
}

/// A scripting-side function, kept alive by the host runtime and named by
/// this handle.
#[derive(Debug, Clone, Copy, PartialEq, Eq, Structural)]
pub struct CallbackHandle(pub usize);

/// The scripting-side wrapper object of an out-parameter, named by this handle;
/// its `value` is written back after the call.
#[derive(Debug, Clone, Copy, PartialEq, Eq, Structural)]
pub struct RefHandle(pub usize);

/// An out-parameter: the value passed in, and the wrapper to update.
#[derive(Debug)]
pub struct Ref {
    pub value: Box<Value>,
    pub js_obj: RefHandle,
}

impl Ref {
    pub fn new(value: Value, js_obj: RefHandle) -> (r: Ref)
        ensures
            *r.value == value,
            r.js_obj == js_obj,
    {
        Ref { value: Box::new(value), js_obj }
    }
}

/// A dynamic value, mirroring the scripting runtime's value kinds.
#[derive(Debug)]
pub enum Value {
    Number(Number),
    String(String),
    Boolean(bool),
    Object(ObjectId),
    Null,
    Undefined,
    Array(Vec<Value>),
    Callback(CallbackHandle),
    Ref(Ref),
}

impl Value {
    /// Whether the value is `null` or `undefined`.
    pub fn is_nullish(&self) -> (r: bool)
        ensures
            r == (*self is Null || *self is Undefined),
    {
        match self {
            Value::Null | Value::Undefined => true,
            _ => false,
        }
    }
}

} // verus!
