//! Equilibrium thermodynamics of particle species and of the Standard Model
//! bath, as the rules that select and compose each quantity.
//!
//! Real numbers cross this library's boundary as IEEE 754 binary64 bit
//! patterns; `binary64` gives them their exact meaning. The library decides
//! which formula, which statistics, which constant or interpolant applies, and
//! when an input is refused; the caller carries out the arithmetic.

pub mod binary64;
pub mod error;
pub mod standard_model;
pub mod statistics;
pub mod thermal_functions;
pub mod thermodynamic_particle;
pub mod dataset;
