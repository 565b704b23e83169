//! Wire values whose type is not fixed, and the decoder that settles them.
//!
//! Some fields arrive either as a number or as a text that stands for "no
//! number applies". The decoder keeps the number and drops the text.

use vstd::prelude::*;

verus! {

/// A 64-bit binary number of the wire format, held by its bit pattern. The
/// library carries such numbers and never computes with them. Two values are
/// equal when their bit patterns are.
#[derive(Clone, Copy, Debug, PartialEq, Eq, Structural)]
pub struct Number {
    bits: u64,
}

impl Number {
    /// The bit pattern of the number.
    pub closed spec fn bits(self) -> u64 {
        self.bits
    }

    /// The number with the given bit pattern.
    pub fn from_bits(bits: u64) -> (n: Number)
        ensures
            n.bits() == bits,
    {
        Number { bits }
    }

    /// The bit pattern of the number.
    pub fn to_bits(self) -> (bits: u64)
        ensures
            bits == self.bits(),
    {
        self.bits
    }
}

/// One of two alternatives.
#[derive(Clone, Debug)]
pub enum Either<L, R> {
    Left(L),
    Right(R),
}

impl<L, R> Either<L, R> {
    /// The right alternative, if that is what the value holds.
    pub fn right(self) -> (r: Option<R>)
        ensures
            r == match self {
                Either::Left(_) => None::<R>,
                Either::Right(v) => Some(v),
            },
    {
        match self {
            Either::Left(_) => None,
            Either::Right(v) => Some(v),
        }
    }
}

/// The shapes that a value of the wire format can have.
#[derive(Clone, Copy, Debug, PartialEq, Eq, Structural)]
pub enum WireKind {
    Null,
    Bool,
    Number,
    Text,
    Array,
    Object,
}

/// A value of the wire format, as far as the decoders of this library read
/// it: its shape, and its content where it is a scalar.
#[derive(Debug)]
pub enum WireValue {
    Null,
    Bool(bool),
    Number(Number),
    Text(String),
    Array,
    Object,
}

/// A wire value whose shape is none of those that a decoder accepts.
#[derive(Clone, Copy, Debug, PartialEq, Eq, Structural)]
pub struct TypeMismatch {
    /// The shape that was found.
    pub found: WireKind,
    /// The first of the two shapes that would have been accepted.
    pub expected: WireKind,
    /// The second of them.
    pub or_expected: WireKind,
}

impl Clone for WireValue {
    fn clone(&self) -> (c: WireValue)
        ensures
            c == *self,
    {
        match self {
            WireValue::Null => WireValue::Null,
            WireValue::Bool(b) => WireValue::Bool(*b),
            WireValue::Number(n) => WireValue::Number(*n),
            WireValue::Text(s) => WireValue::Text(s.clone()),
            WireValue::Array => WireValue::Array,
            WireValue::Object => WireValue::Object,
        }
    }
}

impl WireValue {
    /// The shape of the value.
    pub open spec fn spec_kind(&self) -> WireKind {
        match self {
            WireValue::Null => WireKind::Null,
            WireValue::Bool(_) => WireKind::Bool,
            WireValue::Number(_) => WireKind::Number,
            WireValue::Text(_) => WireKind::Text,
            WireValue::Array => WireKind::Array,
            WireValue::Object => WireKind::Object,
        }
    }

    /// The shape of the value.
    #[verifier::when_used_as_spec(spec_kind)]
    pub fn kind(&self) -> (k: WireKind)
        ensures
            k == self.spec_kind(),
    {
        match self {
            WireValue::Null => WireKind::Null,
            WireValue::Bool(_) => WireKind::Bool,
            WireValue::Number(_) => WireKind::Number,
            WireValue::Text(_) => WireKind::Text,
            WireValue::Array => WireKind::Array,
            WireValue::Object => WireKind::Object,
        }
    }
}

/// The error for a value that is neither a text nor a number.
pub open spec fn neither_text_nor_number(found: WireKind) -> TypeMismatch {
    TypeMismatch { found, expected: WireKind::Text, or_expected: WireKind::Number }
}

/// Reads a value that is either a text or a number: a text becomes the left
/// alternative and a number the right one, each with its content. A value of
/// any other shape is rejected, and the error names the shape found and the
/// two that were expected.
pub fn text_or_number(value: WireValue) -> (r: Result<Either<String, Number>, TypeMismatch>)
    ensures
        r == match value {
            WireValue::Text(s) => Ok::<Either<String, Number>, TypeMismatch>(Either::Left(s)),
            WireValue::Number(n) => Ok(Either::Right(n)),
            _ => Err(neither_text_nor_number(value.kind())),
        },
{
    match value {
        WireValue::Text(s) => Ok(Either::Left(s)),
        WireValue::Number(n) => Ok(Either::Right(n)),
        other => Err(
            TypeMismatch {
                found: other.kind(),
                expected: WireKind::Text,
                or_expected: WireKind::Number,
            },
        ),
    }
}

} // verus!
