//! Equilibrium densities of a single species.
//!
//! With x = m / T and eta the sign of the species' statistics, the scaled
//! quantities are integrals over z from x to infinity:
//!
//! - number density: `z sqrt(z^2 - x^2) / (exp(z) - eta)`, over `2 pi^2`;
//! - energy density: `z^2 sqrt(z^2 - x^2) / (exp(z) - eta)`, over `2 pi^2`;
//! - pressure: `(z^2 - x^2)^(3/2) / (exp(z) - eta)`, over `6 pi^2`;
//! - entropy density: `(4 z^2 - x^2) sqrt(z^2 - x^2) / (exp(z) - eta)`,
//!   over `6 pi^2`.
//!
//! A physical quantity is a scaled one times the degeneracy g, a power of T
//! and a fixed factor. The functions here refuse arguments outside their
//! domain and say which integral, which sign and which factors make up the
//! quantity asked for. The caller works out x, runs the quadrature and
//! multiplies out: `PhysicalQuantity::integral_at` judges the x it found,
//! and what the quadrature reported comes back as a `QuadratureOutcome`
//! that the functions ending in `_from` judge. A quadrature that has not
//! met its convergence criterion is an `IntegrationFailure`, whatever value
//! it left behind. Numbers are binary64 patterns.

use vstd::prelude::*;
use crate::binary64::is_finite;
use crate::binary64::is_non_negative;
use crate::binary64::is_positive;
use crate::binary64::le;
use crate::binary64::spec_is_finite;
use crate::binary64::spec_is_non_negative;
use crate::binary64::spec_le;
use crate::binary64::spec_is_positive;
use crate::error::ThermoError;
use crate::statistics::statistics_of;
use crate::statistics::Statistics;

verus! {

/// Order of the Gauss-Kronrod rule of the quadrature.
pub const QUADRATURE_ORDER: usize = 7;

/// Absolute tolerance of the quadrature: plus zero.
pub const QUADRATURE_EPSABS: u64 = 0;

/// Relative tolerance of the quadrature: the binary64 nearest to one
/// thousandth.
pub const QUADRATURE_EPSREL: u64 = 0x3f50_624d_d2f1_a9fc;

/// Which of the four integrands is integrated.
#[derive(Clone, Copy, Debug, PartialEq, Eq)]
pub enum Integrand {
    /// `z sqrt(z^2 - x^2) / (exp(z) - eta)`
    Number,
    /// `z^2 sqrt(z^2 - x^2) / (exp(z) - eta)`
    Energy,
    /// `(z^2 - x^2)^(3/2) / (exp(z) - eta)`
    Pressure,
    /// `(4 z^2 - x^2) sqrt(z^2 - x^2) / (exp(z) - eta)`
    Entropy,
}

/// A scaled, dimensionless quantity: the integral of `integrand` with the
/// sign of `statistics` from x to infinity, divided by
/// `pi_squared_divisor * pi^2`.
#[derive(Clone, Copy, Debug, PartialEq, Eq)]
pub struct ScaledQuantity {
    pub integrand: Integrand,
    pub statistics: Statistics,
    pub pi_squared_divisor: u8,
}

/// A quantity of one species at one temperature:
/// `numerator / denominator * g * T^temperature_power * scaled`, divided
/// once more by `pi^2` where `over_pi_squared` is set.
#[derive(Clone, Copy, Debug, PartialEq, Eq)]
pub struct PhysicalQuantity {
    pub scaled: ScaledQuantity,
    pub numerator: u8,
    pub denominator: u8,
    pub over_pi_squared: bool,
    pub temperature_power: u8,
}

/// A scaled quantity, or why there is none.
pub type Scaled = Result<ScaledQuantity, ThermoError>;

/// A physical quantity, or why there is none.
pub type Physical = Result<PhysicalQuantity, ThermoError>;

/// What the quadrature reported for one integral.
#[derive(Clone, Copy, Debug, PartialEq, Eq)]
pub struct QuadratureOutcome {
    /// Whether the quadrature met its convergence criterion.
    pub converged: bool,
    /// The value that it delivered, or left behind when it gave up.
    pub value: u64,
}

/// The value of an integral, or why there is none.
pub type Integral = Result<u64, ThermoError>;

/// A scaled quantity with the value of its integral, or why there is none.
pub type Integrated = Result<(ScaledQuantity, u64), ThermoError>;

/// The integral that an outcome stands for: its value where the quadrature
/// converged on a finite number, an `IntegrationFailure` otherwise. The
/// partial sum of a quadrature that gave up is no integral, nor is an
/// infinity or a NaN.
pub open spec fn integral_of(outcome: QuadratureOutcome) -> Integral {
    if outcome.converged && spec_is_finite(outcome.value) {
        Ok(outcome.value)
    } else {
        Err(ThermoError::IntegrationFailure)
    }
}

/// A scaled quantity at x = m / T together with its integral: `InvalidInput`
/// unless x is a number, zero or above; then the failure of the quadrature,
/// if it failed; else the quantity and the value.
pub open spec fn integrated(
    integrand: Integrand,
    x: u64,
    spin2: usize,
    outcome: QuadratureOutcome,
) -> Integrated {
    if !spec_is_non_negative(x) {
        Err(ThermoError::InvalidInput)
    } else {
        match integral_of(outcome) {
            Ok(value) => Ok((scaled_of(integrand, spin2), value)),
            Err(e) => Err(e),
        }
    }
}

/// The multiple of `pi^2` that normalises each integral.
pub open spec fn normalisation(integrand: Integrand) -> u8 {
    match integrand {
        Integrand::Number => 2,
        Integrand::Energy => 2,
        Integrand::Pressure => 6,
        Integrand::Entropy => 6,
    }
}

/// The scaled quantity built on an integrand, for a species of spin
/// `spin2 / 2`.
pub open spec fn scaled_of(integrand: Integrand, spin2: usize) -> ScaledQuantity {
    ScaledQuantity {
        integrand,
        statistics: statistics_of(spin2 as nat),
        pi_squared_divisor: normalisation(integrand),
    }
}

/// A scaled quantity at x = m / T: refused unless x is a number, zero or
/// above.
pub open spec fn scaled_at(integrand: Integrand, x: u64, spin2: usize) -> Scaled {
    if spec_is_non_negative(x) {
        Ok(scaled_of(integrand, spin2))
    } else {
        Err(ThermoError::InvalidInput)
    }
}

/// The domain of the physical quantities: temperature and mass are numbers,
/// zero or above, and the degeneracy is a number above zero.
pub open spec fn in_domain(temperature: u64, mass: u64, g: u64) -> bool {
    &&& spec_is_non_negative(temperature)
    &&& spec_is_non_negative(mass)
    &&& spec_is_positive(g)
}

/// A density: `g * T^temperature_power * scaled`.
pub open spec fn density_of(
    integrand: Integrand,
    spin2: usize,
    temperature_power: u8,
) -> PhysicalQuantity {
    PhysicalQuantity {
        scaled: scaled_of(integrand, spin2),
        numerator: 1,
        denominator: 1,
        over_pi_squared: false,
        temperature_power,
    }
}

/// Degrees of freedom stored in energy: `30 / pi^2 * g * scaled energy
/// density`.
pub open spec fn geff_of(spin2: usize) -> PhysicalQuantity {
    PhysicalQuantity {
        scaled: scaled_of(Integrand::Energy, spin2),
        numerator: 30,
        denominator: 1,
        over_pi_squared: true,
        temperature_power: 0,
    }
}

/// Degrees of freedom stored in entropy: `45 / (2 pi^2) * g * scaled entropy
/// density`.
pub open spec fn heff_of(spin2: usize) -> PhysicalQuantity {
    PhysicalQuantity {
        scaled: scaled_of(Integrand::Entropy, spin2),
        numerator: 45,
        denominator: 2,
        over_pi_squared: true,
        temperature_power: 0,
    }
}

/// A physical quantity on its domain, `InvalidInput` off it.
pub open spec fn checked(
    temperature: u64,
    mass: u64,
    g: u64,
    quantity: PhysicalQuantity,
) -> Physical {
    if in_domain(temperature, mass, g) {
        Ok(quantity)
    } else {
        Err(ThermoError::InvalidInput)
    }
}

impl PhysicalQuantity {
    /// The scaled quantity to integrate, once x = m / T has been worked out:
    /// refused unless x is a number, zero or above. Zero over zero and
    /// infinity over infinity are not.
    pub fn integral_at(&self, x: u64) -> (integral: Scaled)
        ensures
            spec_is_non_negative(x) ==> integral == Scaled::Ok(self.scaled),
            !spec_is_non_negative(x) ==> integral == Scaled::Err(ThermoError::InvalidInput),
    {
        if is_non_negative(x) {
            Ok(self.scaled)
        } else {
            Err(ThermoError::InvalidInput)
        }
    }

    /// The scaled quantity and the value of its integral, once the
    /// quadrature has run at x = m / T: `InvalidInput` unless x is a number,
    /// zero or above, `IntegrationFailure` unless the quadrature converged
    /// on a finite value.
    pub fn integral_from(&self, x: u64, outcome: QuadratureOutcome) -> (found: Integrated)
        ensures
            !spec_is_non_negative(x) ==> found == Integrated::Err(ThermoError::InvalidInput),
            spec_is_non_negative(x) ==> found == (match integral_of(outcome) {
                Ok(value) => Integrated::Ok((self.scaled, value)),
                Err(e) => Integrated::Err(e),
            }),
    {
        if !is_non_negative(x) {
            return Err(ThermoError::InvalidInput);
        }
        match accept_outcome(outcome) {
            Ok(value) => Ok((self.scaled, value)),
            Err(e) => Err(e),
        }
    }
}

impl QuadratureOutcome {
    /// The outcome of a quadrature that reports a value and an estimate of
    /// its error: it converged where the estimate is a number and at most
    /// `bound`, the error that the tolerances allow on that value. An
    /// estimate or a bound that is a NaN is no convergence.
    pub fn from_estimate(value: u64, error_estimate: u64, bound: u64) -> (outcome:
        QuadratureOutcome)
        ensures
            outcome.value == value,
            outcome.converged == spec_le(error_estimate, bound),
    {
        QuadratureOutcome { converged: le(error_estimate, bound), value }
    }
}

fn scaled(integrand: Integrand, spin2: usize) -> (quantity: ScaledQuantity)
    ensures
        quantity == scaled_of(integrand, spin2),
{
    let pi_squared_divisor: u8 = match integrand {
        Integrand::Number => 2,
        Integrand::Energy => 2,
        Integrand::Pressure => 6,
        Integrand::Entropy => 6,
    };
    ScaledQuantity { integrand, statistics: Statistics::from_spin2(spin2), pi_squared_divisor }
}

fn scaled_checked(integrand: Integrand, x: u64, spin2: usize) -> (quantity: Scaled)
    ensures
        quantity == scaled_at(integrand, x, spin2),
{
    if is_non_negative(x) {
        Ok(scaled(integrand, spin2))
    } else {
        Err(ThermoError::InvalidInput)
    }
}

fn density(integrand: Integrand, spin2: usize, temperature_power: u8) -> (quantity:
    PhysicalQuantity)
    ensures
        quantity == density_of(integrand, spin2, temperature_power),
{
    PhysicalQuantity {
        scaled: scaled(integrand, spin2),
        numerator: 1,
        denominator: 1,
        over_pi_squared: false,
        temperature_power,
    }
}

fn check(temperature: u64, mass: u64, g: u64, quantity: PhysicalQuantity) -> (outcome: Physical)
    ensures
        outcome == checked(temperature, mass, g, quantity),
{
    if is_non_negative(temperature) && is_non_negative(mass) && is_positive(g) {
        Ok(quantity)
    } else {
        Err(ThermoError::InvalidInput)
    }
}

/// The scaled number density at x = m / T.
pub fn neq_scaled(x: u64, spin2: usize) -> (quantity: Scaled)
    ensures
        quantity == scaled_at(Integrand::Number, x, spin2),
        spec_is_non_negative(x) <==> quantity is Ok,
        quantity matches Ok(q) ==> {
            &&& q.integrand == Integrand::Number
            &&& q.statistics == statistics_of(spin2 as nat)
            &&& q.pi_squared_divisor == 2
        },
{
    scaled_checked(Integrand::Number, x, spin2)
}

/// The scaled energy density at x = m / T.
pub fn energy_density_scaled(x: u64, spin2: usize) -> (quantity: Scaled)
    ensures
        quantity == scaled_at(Integrand::Energy, x, spin2),
        spec_is_non_negative(x) <==> quantity is Ok,
        quantity matches Ok(q) ==> {
            &&& q.integrand == Integrand::Energy
            &&& q.statistics == statistics_of(spin2 as nat)
            &&& q.pi_squared_divisor == 2
        },
{
    scaled_checked(Integrand::Energy, x, spin2)
}

/// The scaled pressure at x = m / T.
pub fn pressure_density_scaled(x: u64, spin2: usize) -> (quantity: Scaled)
    ensures
        quantity == scaled_at(Integrand::Pressure, x, spin2),
        spec_is_non_negative(x) <==> quantity is Ok,
        quantity matches Ok(q) ==> {
            &&& q.integrand == Integrand::Pressure
            &&& q.statistics == statistics_of(spin2 as nat)
            &&& q.pi_squared_divisor == 6
        },
{
    scaled_checked(Integrand::Pressure, x, spin2)
}

/// The scaled entropy density at x = m / T.
pub fn entropy_density_scaled(x: u64, spin2: usize) -> (quantity: Scaled)
    ensures
        quantity == scaled_at(Integrand::Entropy, x, spin2),
        spec_is_non_negative(x) <==> quantity is Ok,
        quantity matches Ok(q) ==> {
            &&& q.integrand == Integrand::Entropy
            &&& q.statistics == statistics_of(spin2 as nat)
            &&& q.pi_squared_divisor == 6
        },
{
    scaled_checked(Integrand::Entropy, x, spin2)
}

/// The equilibrium number density of a species of mass `mass`, degeneracy
/// `g` and spin `spin2 / 2` at `temperature`: `g T^3` times the scaled
/// number density.
pub fn neq(temperature: u64, mass: u64, g: u64, spin2: usize) -> (quantity: Physical)
    ensures
        quantity == checked(temperature, mass, g, density_of(Integrand::Number, spin2, 3)),
        in_domain(temperature, mass, g) <==> quantity is Ok,
        quantity matches Err(e) ==> e == ThermoError::InvalidInput,
{
    check(temperature, mass, g, density(Integrand::Number, spin2, 3))
}

/// The equilibrium energy density: `g T^4` times the scaled energy density.
pub fn energy_density(temperature: u64, mass: u64, g: u64, spin2: usize) -> (quantity: Physical)
    ensures
        quantity == checked(temperature, mass, g, density_of(Integrand::Energy, spin2, 4)),
        in_domain(temperature, mass, g) <==> quantity is Ok,
        quantity matches Err(e) ==> e == ThermoError::InvalidInput,
{
    check(temperature, mass, g, density(Integrand::Energy, spin2, 4))
}

/// The equilibrium pressure: `g T^4` times the scaled pressure.
pub fn pressure_density(temperature: u64, mass: u64, g: u64, spin2: usize) -> (quantity: Physical)
    ensures
        quantity == checked(temperature, mass, g, density_of(Integrand::Pressure, spin2, 4)),
        in_domain(temperature, mass, g) <==> quantity is Ok,
        quantity matches Err(e) ==> e == ThermoError::InvalidInput,
{
    check(temperature, mass, g, density(Integrand::Pressure, spin2, 4))
}

/// The equilibrium entropy density: `g T^3` times the scaled entropy
/// density.
pub fn entropy_density(temperature: u64, mass: u64, g: u64, spin2: usize) -> (quantity: Physical)
    ensures
        quantity == checked(temperature, mass, g, density_of(Integrand::Entropy, spin2, 3)),
        in_domain(temperature, mass, g) <==> quantity is Ok,
        quantity matches Err(e) ==> e == ThermoError::InvalidInput,
{
    check(temperature, mass, g, density(Integrand::Entropy, spin2, 3))
}

/// The number of degrees of freedom that the species stores in energy:
/// `30 / pi^2 * g` times the scaled energy density.
pub fn geff(temperature: u64, mass: u64, g: u64, spin2: usize) -> (quantity: Physical)
    ensures
        quantity == checked(temperature, mass, g, geff_of(spin2)),
        in_domain(temperature, mass, g) <==> quantity is Ok,
        quantity matches Err(e) ==> e == ThermoError::InvalidInput,
{
    let dof = PhysicalQuantity {
        scaled: scaled(Integrand::Energy, spin2),
        numerator: 30,
        denominator: 1,
        over_pi_squared: true,
        temperature_power: 0,
    };
    check(temperature, mass, g, dof)
}

/// The number of degrees of freedom that the species stores in entropy:
/// `45 / (2 pi^2) * g` times the scaled entropy density.
pub fn heff(temperature: u64, mass: u64, g: u64, spin2: usize) -> (quantity: Physical)
    ensures
        quantity == checked(temperature, mass, g, heff_of(spin2)),
        in_domain(temperature, mass, g) <==> quantity is Ok,
        quantity matches Err(e) ==> e == ThermoError::InvalidInput,
{
    let dof = PhysicalQuantity {
        scaled: scaled(Integrand::Entropy, spin2),
        numerator: 45,
        denominator: 2,
        over_pi_squared: true,
        temperature_power: 0,
    };
    check(temperature, mass, g, dof)
}

/// Judges what the quadrature reported: the value where it converged on a
/// finite number, an `IntegrationFailure` where it did not converge or the
/// value is an infinity or a NaN.
pub fn accept_outcome(outcome: QuadratureOutcome) -> (accepted: Integral)
    ensures
        accepted == integral_of(outcome),
        !outcome.converged ==> accepted == Integral::Err(ThermoError::IntegrationFailure),
        accepted matches Ok(value) ==> value == outcome.value && spec_is_finite(value),
{
    if outcome.converged && is_finite(outcome.value) {
        Ok(outcome.value)
    } else {
        Err(ThermoError::IntegrationFailure)
    }
}

fn integrated_checked(
    integrand: Integrand,
    x: u64,
    spin2: usize,
    outcome: QuadratureOutcome,
) -> (found: Integrated)
    ensures
        found == integrated(integrand, x, spin2, outcome),
{
    if !is_non_negative(x) {
        return Err(ThermoError::InvalidInput);
    }
    match accept_outcome(outcome) {
        Ok(value) => Ok((scaled(integrand, spin2), value)),
        Err(e) => Err(e),
    }
}

/// The scaled number density at x = m / T with the value of its integral,
/// from what the quadrature reported.
pub fn neq_scaled_from(x: u64, spin2: usize, outcome: QuadratureOutcome) -> (found: Integrated)
    ensures
        found == integrated(Integrand::Number, x, spin2, outcome),
        !spec_is_non_negative(x) ==> found == Integrated::Err(ThermoError::InvalidInput),
        spec_is_non_negative(x) ==> found == (match integral_of(outcome) {
            Ok(value) => Integrated::Ok((scaled_of(Integrand::Number, spin2), value)),
            Err(e) => Integrated::Err(e),
        }),
        spec_is_non_negative(x) && !outcome.converged ==> found == Integrated::Err(
            ThermoError::IntegrationFailure,
        ),
{
    integrated_checked(Integrand::Number, x, spin2, outcome)
}

/// The scaled energy density at x = m / T with the value of its integral,
/// from what the quadrature reported.
pub fn energy_density_scaled_from(x: u64, spin2: usize, outcome: QuadratureOutcome) -> (found:
    Integrated)
    ensures
        found == integrated(Integrand::Energy, x, spin2, outcome),
        !spec_is_non_negative(x) ==> found == Integrated::Err(ThermoError::InvalidInput),
        spec_is_non_negative(x) ==> found == (match integral_of(outcome) {
            Ok(value) => Integrated::Ok((scaled_of(Integrand::Energy, spin2), value)),
            Err(e) => Integrated::Err(e),
        }),
        spec_is_non_negative(x) && !outcome.converged ==> found == Integrated::Err(
            ThermoError::IntegrationFailure,
        ),
{
    integrated_checked(Integrand::Energy, x, spin2, outcome)
}

/// The scaled pressure at x = m / T with the value of its integral, from
/// what the quadrature reported.
pub fn pressure_density_scaled_from(x: u64, spin2: usize, outcome: QuadratureOutcome) -> (found:
    Integrated)
    ensures
        found == integrated(Integrand::Pressure, x, spin2, outcome),
        !spec_is_non_negative(x) ==> found == Integrated::Err(ThermoError::InvalidInput),
        spec_is_non_negative(x) ==> found == (match integral_of(outcome) {
            Ok(value) => Integrated::Ok((scaled_of(Integrand::Pressure, spin2), value)),
            Err(e) => Integrated::Err(e),
        }),
        spec_is_non_negative(x) && !outcome.converged ==> found == Integrated::Err(
            ThermoError::IntegrationFailure,
        ),
{
    integrated_checked(Integrand::Pressure, x, spin2, outcome)
}

/// The scaled entropy density at x = m / T with the value of its integral,
/// from what the quadrature reported.
pub fn entropy_density_scaled_from(x: u64, spin2: usize, outcome: QuadratureOutcome) -> (found:
    Integrated)
    ensures
        found == integrated(Integrand::Entropy, x, spin2, outcome),
        !spec_is_non_negative(x) ==> found == Integrated::Err(ThermoError::InvalidInput),
        spec_is_non_negative(x) ==> found == (match integral_of(outcome) {
            Ok(value) => Integrated::Ok((scaled_of(Integrand::Entropy, spin2), value)),
            Err(e) => Integrated::Err(e),
        }),
        spec_is_non_negative(x) && !outcome.converged ==> found == Integrated::Err(
            ThermoError::IntegrationFailure,
        ),
{
    integrated_checked(Integrand::Entropy, x, spin2, outcome)
}

} // verus!
