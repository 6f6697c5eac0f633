//! The tagged arithmetic value exchanged through the store.

use vstd::prelude::*;

verus! {

use vstd::arithmetic::div_mod::lemma_div_is_ordered_by_denominator;
use vstd::arithmetic::div_mod::lemma_div_nonincreasing;
use vstd::arithmetic::div_mod::lemma_div_pos_is_pos;

/// A value passed between scheduled units: a 32-bit signed integer or a
/// piece of text.  Arithmetic is defined only between two integers; any
/// other pairing yields `None` rather than a crash.
#[derive(Debug, Clone, PartialEq, Eq)]
pub enum Data {
    I32(i32),
    Text(String),
}

impl Data {
    /// Whether this value carries an integer.
    pub open spec fn is_int(self) -> bool {
        self matches Data::I32(_)
    }

    /// The sum of two values: wrapping addition when both are integers,
    /// nothing otherwise.
    pub open spec fn spec_add(self, other: Data) -> Option<Data> {
        match (self, other) {
            (Data::I32(a), Data::I32(b)) => Some(Data::I32(a.wrapping_add(b))),
            _ => None,
        }
    }

    /// The difference of two values: wrapping subtraction when both are
    /// integers, nothing otherwise.
    pub open spec fn spec_sub(self, other: Data) -> Option<Data> {
        match (self, other) {
            (Data::I32(a), Data::I32(b)) => Some(Data::I32(a.wrapping_sub(b))),
            _ => None,
        }
    }

    /// The product of two values: wrapping multiplication when both are
    /// integers, nothing otherwise.
    pub open spec fn spec_mul(self, other: Data) -> Option<Data> {
        match (self, other) {
            (Data::I32(a), Data::I32(b)) => Some(Data::I32(a.wrapping_mul(b))),
            _ => None,
        }
    }

    /// The quotient of two values: truncating division when both are
    /// integers and the divisor is nonzero (wrapping on the one overflowing
    /// pair), nothing otherwise.
    pub open spec fn spec_div(self, other: Data) -> Option<Data> {
        match (self, other) {
            (Data::I32(a), Data::I32(b)) => if b == 0 {
                None
            } else if a == i32::MIN && b == -1 {
                Some(Data::I32(i32::MIN))
            } else {
                match a.checked_div(b) {
                    Some(q) => Some(Data::I32(q)),
                    None => None,
                }
            },
            _ => None,
        }
    }

    /// Adds two values; fails exactly on a non-integer operand.
    pub fn add(self, other: Self) -> (r: Option<Data>)
        ensures
            r == self.spec_add(other),
    {
        match (self, other) {
            (Data::I32(a), Data::I32(b)) => Some(Data::I32(a.wrapping_add(b))),
            _ => None,
        }
    }

    /// Subtracts two values; fails exactly on a non-integer operand.
    pub fn sub(self, other: Self) -> (r: Option<Data>)
        ensures
            r == self.spec_sub(other),
    {
        match (self, other) {
            (Data::I32(a), Data::I32(b)) => Some(Data::I32(a.wrapping_sub(b))),
            _ => None,
        }
    }

    /// Multiplies two values; fails exactly on a non-integer operand.
    pub fn mul(self, other: Self) -> (r: Option<Data>)
        ensures
            r == self.spec_mul(other),
    {
        match (self, other) {
            (Data::I32(a), Data::I32(b)) => Some(Data::I32(a.wrapping_mul(b))),
            _ => None,
        }
    }

    /// Divides two values; fails exactly on a non-integer operand or a
    /// zero divisor.
    pub fn div(self, other: Self) -> (r: Option<Data>)
        ensures
            r == self.spec_div(other),
    {
        match (self, other) {
            (Data::I32(a), Data::I32(b)) => {
                if b == 0 {
                    None
                } else if a == i32::MIN && b == -1 {
                    Some(Data::I32(i32::MIN))
                } else {
                    match a.checked_div(b) {
                        Some(q) => Some(Data::I32(q)),
                        None => None,
                    }
                }
            },
            _ => None,
        }
    }
}

/// On two integers, addition, subtraction and multiplication always
/// succeed, and division succeeds exactly when the divisor is nonzero.
pub proof fn lemma_int_arithmetic_total(a: i32, b: i32)
    ensures
        Data::I32(a).spec_add(Data::I32(b)) is Some,
        Data::I32(a).spec_sub(Data::I32(b)) is Some,
        Data::I32(a).spec_mul(Data::I32(b)) is Some,
        Data::I32(a).spec_div(Data::I32(b)) is Some <==> b != 0,
{
    if b != 0 && !(a == i32::MIN && b == -1) {
        let x = a as int;
        let d = b as int;
        if x > 0 && d > 0 {
            lemma_div_pos_is_pos(x, d);
            lemma_div_nonincreasing(x, d);
        } else if x < 0 && d < 0 {
            lemma_div_pos_is_pos(x * -1, d * -1);
            lemma_div_nonincreasing(x * -1, d * -1);
            if a == i32::MIN {
                lemma_div_is_ordered_by_denominator(x * -1, 2, d * -1);
            }
        } else if x < 0 {
            lemma_div_pos_is_pos(x * -1, d);
            lemma_div_nonincreasing(x * -1, d);
        } else if x > 0 {
            lemma_div_pos_is_pos(x, d * -1);
            lemma_div_nonincreasing(x, d * -1);
        }
    }
}

/// When either operand is text, every operator yields nothing.
pub proof fn lemma_mismatch_fails(x: Data, y: Data)
    requires
        !x.is_int() || !y.is_int(),
    ensures
        x.spec_add(y) is None,
        x.spec_sub(y) is None,
        x.spec_mul(y) is None,
        x.spec_div(y) is None,
{
}

} // verus!
