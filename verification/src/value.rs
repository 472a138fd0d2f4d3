//! Runtime values.

use vstd::prelude::*;
use crate::classes::{BoundMethodRef, ClazzRef, InstanceRef};
use crate::function::{ClosureRef, Function, NativeFunction};
use crate::intern_string::Symbol;

verus! {

/// The sign bit of a binary64 number.
pub const SIGN_BIT: u64 = 0x8000_0000_0000_0000;

/// The exponent bits of a binary64 number.
pub const EXPONENT_BITS: u64 = 0x7ff0_0000_0000_0000;

/// The fraction bits of a binary64 number.
pub const FRACTION_BITS: u64 = 0x000f_ffff_ffff_ffff;

/// Whether a bit pattern is a NaN: all exponent bits set and a fraction
/// that is not zero.
pub open spec fn is_nan(bits: u64) -> bool {
    bits & EXPONENT_BITS == EXPONENT_BITS && bits & FRACTION_BITS != 0
}

/// The bit pattern without its sign.
pub open spec fn magnitude(bits: u64) -> u64 {
    bits & !SIGN_BIT
}

/// Whether the sign bit is set.
pub open spec fn negative(bits: u64) -> bool {
    bits & SIGN_BIT != 0
}

/// Equality of two binary64 numbers given by their bits: no NaN equals
/// anything, the two zeros are equal, and any other number equals only
/// itself.
pub open spec fn number_equal(a: u64, b: u64) -> bool {
    !is_nan(a) && !is_nan(b) && (a == b || (magnitude(a) == 0 && magnitude(b) == 0))
}

/// The order of two binary64 numbers given by their bits: no NaN is below
/// or above anything, the two zeros are equal, negative numbers are below
/// positive ones, and among numbers of one sign the magnitudes decide.
pub open spec fn number_less(a: u64, b: u64) -> bool {
    !is_nan(a) && !is_nan(b) && if negative(a) {
        if negative(b) {
            magnitude(a) > magnitude(b)
        } else {
            !(magnitude(a) == 0 && magnitude(b) == 0)
        }
    } else {
        !negative(b) && magnitude(a) < magnitude(b)
    }
}

/// The number with the opposite sign.
pub open spec fn number_negated(a: u64) -> u64 {
    a ^ SIGN_BIT
}

pub fn double_is_nan(bits: u64) -> (r: bool)
    ensures
        r == is_nan(bits),
{
    bits & EXPONENT_BITS == EXPONENT_BITS && bits & FRACTION_BITS != 0
}

pub fn double_equal(a: u64, b: u64) -> (r: bool)
    ensures
        r == number_equal(a, b),
{
    !double_is_nan(a) && !double_is_nan(b) && (a == b || ((a & !SIGN_BIT) == 0 && (b & !SIGN_BIT)
        == 0))
}

pub fn double_less(a: u64, b: u64) -> (r: bool)
    ensures
        r == number_less(a, b),
{
    if double_is_nan(a) || double_is_nan(b) {
        return false;
    }
    let size_a = a & !SIGN_BIT;
    let size_b = b & !SIGN_BIT;
    if a & SIGN_BIT != 0 {
        if b & SIGN_BIT != 0 {
            size_a > size_b
        } else {
            !(size_a == 0 && size_b == 0)
        }
    } else {
        !(b & SIGN_BIT != 0) && size_a < size_b
    }
}

pub fn double_negate(a: u64) -> (r: u64)
    ensures
        r == number_negated(a),
{
    a ^ SIGN_BIT
}

/// A value of the language. A number is held as the bit pattern of its
/// binary64 form; functions, closures, classes, instances and bound
/// methods are held by reference into the heap.
#[derive(Debug)]
pub enum Value {
    Bool(bool),
    Double(u64),
    String(Symbol),
    Function(Function),
    NativeFunction(NativeFunction),
    Closure(ClosureRef),
    Class(ClazzRef),
    Instance(InstanceRef),
    BoundMethod(BoundMethodRef),
    Nil,
}

/// `nil` and `false` are falsy; every other value is truthy.
pub open spec fn falsy(value: Value) -> bool {
    value == Value::Nil || value == Value::Bool(false)
}

/// Equality of the language: `nil` equals `nil`; booleans, numbers and
/// strings are equal by content; everything else by identity.
pub open spec fn values_equal(a: Value, b: Value) -> bool {
    match (a, b) {
        (Value::Nil, Value::Nil) => true,
        (Value::Bool(x), Value::Bool(y)) => x == y,
        (Value::Double(x), Value::Double(y)) => number_equal(x, y),
        (Value::String(x), Value::String(y)) => x@ == y@,
        (Value::Function(x), Value::Function(y)) => x == y,
        (Value::NativeFunction(x), Value::NativeFunction(y)) => x.id == y.id,
        (Value::Closure(x), Value::Closure(y)) => x == y,
        (Value::Class(x), Value::Class(y)) => x == y,
        (Value::Instance(x), Value::Instance(y)) => x == y,
        (Value::BoundMethod(x), Value::BoundMethod(y)) => x == y,
        _ => false,
    }
}

impl Value {
    pub fn is_falsy(&self) -> (r: bool)
        ensures
            r == falsy(*self),
    {
        match self {
            Value::Nil => true,
            Value::Bool(b) => !*b,
            _ => false,
        }
    }

    /// Whether two values are equal in the language.
    pub fn equals(&self, other: &Value) -> (r: bool)
        ensures
            r == values_equal(*self, *other),
    {
        match (self, other) {
            (Value::Nil, Value::Nil) => true,
            (Value::Bool(x), Value::Bool(y)) => *x == *y,
            (Value::Double(x), Value::Double(y)) => double_equal(*x, *y),
            (Value::String(x), Value::String(y)) => x.same(y),
            (Value::Function(x), Value::Function(y)) => x.index == y.index,
            (Value::NativeFunction(x), Value::NativeFunction(y)) => x.id == y.id,
            (Value::Closure(x), Value::Closure(y)) => x.index == y.index,
            (Value::Class(x), Value::Class(y)) => x.index == y.index,
            (Value::Instance(x), Value::Instance(y)) => x.index == y.index,
            (Value::BoundMethod(x), Value::BoundMethod(y)) => x.index == y.index,
            _ => false,
        }
    }
}

impl Clone for Value {
    fn clone(&self) -> (r: Value)
        ensures
            r == *self,
    {
        match self {
            Value::Bool(b) => Value::Bool(*b),
            Value::Double(d) => Value::Double(*d),
            Value::String(s) => Value::String(s.clone()),
            Value::Function(f) => Value::Function(*f),
            Value::NativeFunction(f) => Value::NativeFunction(*f),
            Value::Closure(c) => Value::Closure(*c),
            Value::Class(c) => Value::Class(*c),
            Value::Instance(i) => Value::Instance(*i),
            Value::BoundMethod(b) => Value::BoundMethod(*b),
            Value::Nil => Value::Nil,
        }
    }
}

/// A piece of output. Text is final; a number is handed out as its bits,
/// for whoever writes the output to put into decimal form.
#[derive(Debug)]
pub enum Printed {
    Text(String),
    Number(u64),
}

} // verus!
