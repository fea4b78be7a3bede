//! What every kind of coordinate offers: validated construction from three
//! components and a canonical origin.

use vstd::prelude::*;
use crate::binary64::ZERO;

verus! {

/// A component of a coordinate that has a legal range.
#[derive(Clone, Copy, Debug, PartialEq, Eq, Structural)]
pub enum Field {
    Rho,
    Theta,
    Phi,
}

impl Field {
    /// The component's name as a sequence of characters.
    pub open spec fn label(self) -> Seq<char> {
        match self {
            Field::Rho => "rho"@,
            Field::Theta => "theta"@,
            Field::Phi => "phi"@,
        }
    }

    /// The component's name.
    pub fn name(&self) -> (s: &'static str)
        ensures
            s@ == self.label(),
    {
        match self {
            Field::Rho => "rho",
            Field::Theta => "theta",
            Field::Phi => "phi",
        }
    }
}

/// A component outside its legal range: which one, and the bit pattern of
/// the value that was refused.
#[derive(Clone, Copy, Debug, PartialEq, Eq, Structural)]
pub struct ValidationError {
    pub field: Field,
    pub value: u64,
}

/// A point given by three components, each the bit pattern of a double.
pub trait Coordinate: Sized {
    /// The three components, in the order in which `new` takes them.
    spec fn components(&self) -> (u64, u64, u64);

    /// The error that `new` gives for a triple, or `None` where it accepts
    /// the triple.
    spec fn violation(a: u64, b: u64, c: u64) -> Option<ValidationError>;

    /// Builds a coordinate from three components. It fails exactly on the
    /// triples that have a violation, with that violation as the error, and
    /// otherwise holds the three components unchanged.
    fn new(a: u64, b: u64, c: u64) -> (r: Result<Self, ValidationError>)
        ensures
            match Self::violation(a, b, c) {
                Some(e) => r == Err::<Self, ValidationError>(e),
                None => r is Ok && r->Ok_0.components() == (a, b, c),
            },
    ;

    /// The origin is legal for every kind of coordinate.
    proof fn lemma_origin_is_legal()
        ensures
            Self::violation(ZERO, ZERO, ZERO) is None,
    ;

    /// The origin: all three components positive zero.
    fn zero() -> (r: Self)
        ensures
            r.components() == (ZERO, ZERO, ZERO),
    {
        proof {
            Self::lemma_origin_is_legal();
        }
        Self::new(ZERO, ZERO, ZERO).unwrap()
    }
}

} // verus!
