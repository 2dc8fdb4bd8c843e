//! The failures that the library reports.

use vstd::prelude::*;

verus! {

/// Why a quantity could not be given.
#[derive(Clone, Copy, Debug, PartialEq, Eq)]
pub enum ThermoError {
    /// An argument is outside its domain: a negative or undefined mass,
    /// temperature or degeneracy, an empty or mismatched table, a grid that
    /// does not strictly ascend.
    InvalidInput,
    /// The quadrature did not meet its convergence criterion, or what it
    /// delivered is not a finite number.
    IntegrationFailure,
    /// A table cannot carry an interpolant of the degree asked for.
    InitializationFailure,
}

} // verus!
