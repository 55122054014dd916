//! Finite numbers: the only kind a coordinate may hold.

use crate::error::SchemaError;
use crate::json::{Json, JsonNumber, JsonView};
use crate::wire::{Decode, Encode};
use vstd::prelude::*;

verus! {

/// Whether the 64 bits of a double stand for a finite number: the eleven
/// exponent bits are not all set.
pub open spec fn finite_bits(bits: u64) -> bool {
    (bits >> 52) & 0x7ff != 0x7ff
}

impl JsonNumber {
    /// Whether the number is finite. Every integer is.
    pub open spec fn is_finite(self) -> bool {
        match self {
            JsonNumber::Float(bits) => finite_bits(bits),
            _ => true,
        }
    }

    /// Whether the number is finite.
    pub fn finite(&self) -> (r: bool)
        ensures
            r == self.is_finite(),
    {
        match self {
            JsonNumber::Float(bits) => (*bits >> 52) & 0x7ff != 0x7ff,
            _ => true,
        }
    }
}

/// A number that is neither NaN nor infinite, kept as the JSON number it was
/// read from.
#[derive(Debug, Clone, Copy, PartialEq, Eq)]
pub struct Finite {
    number: JsonNumber,
}

impl DeepView for Finite {
    type V = JsonNumber;

    closed spec fn deep_view(&self) -> JsonNumber {
        self.number
    }
}

/// The finite number that a JSON value stands for. `null`, the wire form of
/// NaN, is rejected as non-finite like a double whose bits are.
pub open spec fn finite_of_json(j: JsonView) -> Result<JsonNumber, SchemaError> {
    match j {
        JsonView::Number(n) => if n.is_finite() {
            Ok(n)
        } else {
            Err(SchemaError::NonFiniteCoordinate)
        },
        JsonView::Null => Err(SchemaError::NonFiniteCoordinate),
        _ => Err(SchemaError::InvalidType),
    }
}

impl Finite {
    #[verifier::type_invariant]
    spec fn holds_finite(self) -> bool {
        self.number.is_finite()
    }

    /// `number` as a finite number, or `None` where it is NaN or infinite.
    pub fn new(number: JsonNumber) -> (r: Option<Finite>)
        ensures
            match r {
                Some(f) => number.is_finite() && f.deep_view() == number,
                None => !number.is_finite(),
            },
    {
        if number.finite() {
            Some(Finite { number })
        } else {
            None
        }
    }

    /// The finite number whose double has the bits `bits`, or `None` where
    /// they stand for NaN or an infinity.
    pub fn from_bits(bits: u64) -> (r: Option<Finite>)
        ensures
            match r {
                Some(f) => finite_bits(bits) && f.deep_view() == JsonNumber::Float(bits),
                None => !finite_bits(bits),
            },
    {
        Finite::new(JsonNumber::Float(bits))
    }

    /// The non-negative integer `n`.
    pub fn from_u64(n: u64) -> (r: Finite)
        ensures
            r.deep_view() == JsonNumber::PosInt(n),
    {
        Finite { number: JsonNumber::PosInt(n) }
    }

    /// The integer `n`, held the way the parser holds it: as a non-negative
    /// integer where it is one.
    pub fn from_i64(n: i64) -> (r: Finite)
        ensures
            r.deep_view() == if n >= 0 {
                JsonNumber::PosInt(n as u64)
            } else {
                JsonNumber::NegInt(n)
            },
    {
        if n >= 0 {
            Finite { number: JsonNumber::PosInt(n as u64) }
        } else {
            Finite { number: JsonNumber::NegInt(n) }
        }
    }

    /// The number held.
    pub fn number(&self) -> (r: JsonNumber)
        ensures
            r == self.deep_view(),
            r.is_finite(),
    {
        proof {
            use_type_invariant(self);
        }
        self.number
    }

}

impl Decode for Finite {
    open spec fn read(j: JsonView) -> Result<JsonNumber, SchemaError> {
        finite_of_json(j)
    }

    /// Reads a finite number.
    fn decode(j: &Json) -> (r: Result<Finite, SchemaError>) {
        match j {
            Json::Number(n) => match Finite::new(*n) {
                Some(f) => Ok(f),
                None => Err(SchemaError::NonFiniteCoordinate),
            },
            Json::Null => Err(SchemaError::NonFiniteCoordinate),
            _ => Err(SchemaError::InvalidType),
        }
    }

}

impl Encode for Finite {
    open spec fn write(n: JsonNumber) -> JsonView {
        JsonView::Number(n)
    }

    /// Writes the number as it was read.
    fn encode(&self) -> (r: Json) {
        assert(Self::write(self.deep_view()) == JsonView::Number(self.deep_view()));
        Json::Number(self.number())
    }
}

} // verus!
