//! The Standard Model bath: effective degrees of freedom in energy (g_eff),
//! in entropy (h_eff), the square root of g-star, and the bath's energy and
//! entropy densities, as functions of the temperature T.
//!
//! The three tabulated quantities are known on a grid of log10 T between
//! -9/2 and 4. At or below the window each is a fixed front constant, at or
//! above it a fixed back constant, strictly inside it the interpolant of its
//! table. The derivatives with respect to T are exactly zero outside the
//! open window. Interpolants are evaluated by the caller: the functions here
//! say which value is due, as an `Evaluation`.
//!
//! The argument of every function is log10 T as a binary64 pattern. It is a
//! NaN exactly when T is negative or a NaN, and that is refused. A
//! temperature of zero lies below the window, an infinite one above it.

use vstd::prelude::*;
use vstd::arithmetic::power2::pow2;
use vstd::arithmetic::power2::lemma_pow2_adds;
use vstd::arithmetic::power2::lemma_pow2_pos;
use vstd::arithmetic::power2::lemma2_to64;
use vstd::arithmetic::power2::lemma2_to64_rest;
use crate::binary64::exponent;
use crate::binary64::fraction;
use crate::binary64::is_nan;
use crate::binary64::le;
use crate::binary64::lt;
use crate::binary64::magnitude_units;
use crate::binary64::spec_is_nan;
use crate::binary64::spec_le;
use crate::binary64::spec_lt;
use crate::binary64::units;
use crate::error::ThermoError;

verus! {

/// Lower end of the tabulated window of log10 T: minus nine halves.
pub const SM_LOG_TEMP_MIN: u64 = 0xc012_0000_0000_0000;

/// Upper end of the tabulated window of log10 T: four.
pub const SM_LOG_TEMP_MAX: u64 = 0x4010_0000_0000_0000;

/// Square root of g-star at and below the window.
pub const SM_GSTAR_FRONT: u64 = 0x4001_215c_a680_c692;

/// Square root of g-star at and above the window.
pub const SM_GSTAR_BACK: u64 = 0x4024_abfb_15b5_73eb;

/// g_eff at and below the window.
pub const SM_GEFF_FRONT: u64 = 0x400b_125e_dce0_b9af;

/// g_eff at and above the window.
pub const SM_GEFF_BACK: u64 = 0x405a_b51e_b851_eb85;

/// h_eff at and below the window.
pub const SM_HEFF_FRONT: u64 = 0x400f_82a9_92ee_6f7a;

/// h_eff at and above the window.
pub const SM_HEFF_BACK: u64 = 0x405a_b51e_b851_eb85;

/// The natural logarithm of ten, to the nearest binary64: the factor between
/// a derivative in log10 T and T times the derivative in T.
pub const SM_LN_10: u64 = 0x4002_6bb1_bbb5_5516;

/// Plus zero: every derivative outside the open window.
pub const SM_FLAT_SLOPE: u64 = 0;

/// Number of nodes of the grid of log10 T, evenly spaced over the window.
pub const SM_GRID_NODES: usize = 341;

/// Degree of the interpolating splines.
pub const SM_SPLINE_DEGREE: usize = 3;

/// Smoothing factor of the splines, plus zero: they pass through the nodes.
pub const SM_SPLINE_SMOOTHING: u64 = 0;

/// Extrapolation mode handed to the spline builder, the same for each table.
/// No function of this module asks for an interpolant outside the window, so
/// the mode shows in no result.
pub const SM_SPLINE_EXTRAPOLATION: usize = 3;

/// One of the three tabulated quantities.
#[derive(Clone, Copy, Debug, PartialEq, Eq)]
pub enum Table {
    /// Square root of g-star.
    SqrtGstar,
    /// Effective degrees of freedom in entropy.
    Heff,
    /// Effective degrees of freedom in energy.
    Geff,
}

/// How a bath quantity is obtained at one temperature.
#[derive(Clone, Copy, Debug, PartialEq, Eq)]
pub enum Evaluation {
    /// The number with this pattern.
    Constant(u64),
    /// The interpolant of the table, at log10 T.
    Spline(Table),
    /// The first derivative of the interpolant of the table at log10 T,
    /// divided by T and by `SM_LN_10`: the chain rule from log10 T to T.
    SplineSlope(Table),
}

/// What a tabulated quantity or its derivative comes to.
pub type Plan = Result<Evaluation, ThermoError>;

/// Minus nine halves, in units of 2^-1074.
pub open spec fn window_low() -> int {
    -9 * (pow2(1073) as int)
}

/// Four, in units of 2^-1074.
pub open spec fn window_high() -> int {
    4 * (pow2(1074) as int)
}

/// log10 T is a number and at most minus nine halves.
pub open spec fn below_window(log_temp: u64) -> bool {
    !spec_is_nan(log_temp) && units(log_temp) <= window_low()
}

/// log10 T is a number strictly between minus nine halves and four.
pub open spec fn inside_window(log_temp: u64) -> bool {
    !spec_is_nan(log_temp) && window_low() < units(log_temp) < window_high()
}

/// log10 T is a number and at least four.
pub open spec fn above_window(log_temp: u64) -> bool {
    !spec_is_nan(log_temp) && units(log_temp) >= window_high()
}

/// The constant that stands for a table at and below the window.
pub open spec fn front(table: Table) -> u64 {
    match table {
        Table::SqrtGstar => SM_GSTAR_FRONT,
        Table::Heff => SM_HEFF_FRONT,
        Table::Geff => SM_GEFF_FRONT,
    }
}

/// The constant that stands for a table at and above the window.
pub open spec fn back(table: Table) -> u64 {
    match table {
        Table::SqrtGstar => SM_GSTAR_BACK,
        Table::Heff => SM_HEFF_BACK,
        Table::Geff => SM_GEFF_BACK,
    }
}

/// The three-piece rule for a tabulated quantity.
pub open spec fn bath_value(table: Table, log_temp: u64) -> Plan {
    if spec_is_nan(log_temp) {
        Err(ThermoError::InvalidInput)
    } else if below_window(log_temp) {
        Ok(Evaluation::Constant(front(table)))
    } else if above_window(log_temp) {
        Ok(Evaluation::Constant(back(table)))
    } else {
        Ok(Evaluation::Spline(table))
    }
}

/// The rule for the derivative of a tabulated quantity with respect to T.
pub open spec fn bath_slope(table: Table, log_temp: u64) -> Plan {
    if spec_is_nan(log_temp) {
        Err(ThermoError::InvalidInput)
    } else if inside_window(log_temp) {
        Ok(Evaluation::SplineSlope(table))
    } else {
        Ok(Evaluation::Constant(SM_FLAT_SLOPE))
    }
}

/// The named ends of the window are minus nine halves and four, and the
/// flat slope is zero.
pub proof fn lemma_window_ends()
    ensures
        !spec_is_nan(SM_LOG_TEMP_MIN),
        !spec_is_nan(SM_LOG_TEMP_MAX),
        units(SM_LOG_TEMP_MIN) == window_low(),
        units(SM_LOG_TEMP_MAX) == window_high(),
        units(SM_FLAT_SLOPE) == 0,
        window_low() < 0 < window_high(),
{
    lemma2_to64();
    lemma2_to64_rest();
    let p = pow2(1024);
    lemma_pow2_pos(1024);
    assert(pow2(1073) == 0x2_0000_0000_0000 * p) by {
        lemma_pow2_adds(49, 1024);
    }
    assert(pow2(1074) == 0x4_0000_0000_0000 * p) by {
        lemma_pow2_adds(50, 1024);
    }
    assert(exponent(SM_LOG_TEMP_MIN) == 1025);
    assert(fraction(SM_LOG_TEMP_MIN) == 0x2_0000_0000_0000);
    assert(magnitude_units(SM_LOG_TEMP_MIN) == 0x12_0000_0000_0000 * p);
    assert(exponent(SM_LOG_TEMP_MAX) == 1025);
    assert(fraction(SM_LOG_TEMP_MAX) == 0);
    assert(magnitude_units(SM_LOG_TEMP_MAX) == 0x10_0000_0000_0000 * p);
    assert(exponent(SM_FLAT_SLOPE) == 0);
}

/// Every log10 T is in exactly one of four cases: not a number, below the
/// window, inside it, above it.
pub proof fn lemma_window_partition(log_temp: u64)
    ensures
        spec_is_nan(log_temp) || below_window(log_temp) || inside_window(log_temp)
            || above_window(log_temp),
        !(spec_is_nan(log_temp) && below_window(log_temp)),
        !(spec_is_nan(log_temp) && inside_window(log_temp)),
        !(spec_is_nan(log_temp) && above_window(log_temp)),
        !(below_window(log_temp) && inside_window(log_temp)),
        !(below_window(log_temp) && above_window(log_temp)),
        !(inside_window(log_temp) && above_window(log_temp)),
{
    lemma_window_ends();
}

/// The front constant of a table.
pub fn front_constant(table: Table) -> (bits: u64)
    ensures
        bits == front(table),
{
    match table {
        Table::SqrtGstar => SM_GSTAR_FRONT,
        Table::Heff => SM_HEFF_FRONT,
        Table::Geff => SM_GEFF_FRONT,
    }
}

/// The back constant of a table.
pub fn back_constant(table: Table) -> (bits: u64)
    ensures
        bits == back(table),
{
    match table {
        Table::SqrtGstar => SM_GSTAR_BACK,
        Table::Heff => SM_HEFF_BACK,
        Table::Geff => SM_GEFF_BACK,
    }
}

/// Applies the three-piece rule to one table.
pub fn value_plan(table: Table, log_temp: u64) -> (plan: Plan)
    ensures
        plan == bath_value(table, log_temp),
{
    proof {
        lemma_window_ends();
    }
    if is_nan(log_temp) {
        Err(ThermoError::InvalidInput)
    } else if le(log_temp, SM_LOG_TEMP_MIN) {
        Ok(Evaluation::Constant(front_constant(table)))
    } else if le(SM_LOG_TEMP_MAX, log_temp) {
        Ok(Evaluation::Constant(back_constant(table)))
    } else {
        Ok(Evaluation::Spline(table))
    }
}

/// Applies the derivative rule to one table.
fn slope_plan(table: Table, log_temp: u64) -> (plan: Plan)
    ensures
        plan == bath_slope(table, log_temp),
{
    proof {
        lemma_window_ends();
    }
    if is_nan(log_temp) {
        Err(ThermoError::InvalidInput)
    } else if lt(SM_LOG_TEMP_MIN, log_temp) && lt(log_temp, SM_LOG_TEMP_MAX) {
        Ok(Evaluation::SplineSlope(table))
    } else {
        Ok(Evaluation::Constant(SM_FLAT_SLOPE))
    }
}

/// The effective number of degrees of freedom in energy stored in the bath.
pub fn sm_geff(log_temp: u64) -> (plan: Plan)
    ensures
        plan == bath_value(Table::Geff, log_temp),
        spec_is_nan(log_temp) ==> plan == Plan::Err(ThermoError::InvalidInput),
        below_window(log_temp) ==> plan == Plan::Ok(Evaluation::Constant(SM_GEFF_FRONT)),
        inside_window(log_temp) ==> plan == Plan::Ok(Evaluation::Spline(Table::Geff)),
        above_window(log_temp) ==> plan == Plan::Ok(Evaluation::Constant(SM_GEFF_BACK)),
{
    proof {
        lemma_window_ends();
    }
    value_plan(Table::Geff, log_temp)
}

/// The derivative with respect to T of the effective number of degrees of
/// freedom in energy stored in the bath.
pub fn sm_geff_deriv(log_temp: u64) -> (plan: Plan)
    ensures
        plan == bath_slope(Table::Geff, log_temp),
        spec_is_nan(log_temp) ==> plan == Plan::Err(ThermoError::InvalidInput),
        below_window(log_temp) ==> plan == Plan::Ok(Evaluation::Constant(SM_FLAT_SLOPE)),
        inside_window(log_temp) ==> plan == Plan::Ok(Evaluation::SplineSlope(Table::Geff)),
        above_window(log_temp) ==> plan == Plan::Ok(Evaluation::Constant(SM_FLAT_SLOPE)),
{
    proof {
        lemma_window_ends();
    }
    slope_plan(Table::Geff, log_temp)
}

/// The effective number of degrees of freedom in entropy stored in the bath.
pub fn sm_heff(log_temp: u64) -> (plan: Plan)
    ensures
        plan == bath_value(Table::Heff, log_temp),
        spec_is_nan(log_temp) ==> plan == Plan::Err(ThermoError::InvalidInput),
        below_window(log_temp) ==> plan == Plan::Ok(Evaluation::Constant(SM_HEFF_FRONT)),
        inside_window(log_temp) ==> plan == Plan::Ok(Evaluation::Spline(Table::Heff)),
        above_window(log_temp) ==> plan == Plan::Ok(Evaluation::Constant(SM_HEFF_BACK)),
{
    proof {
        lemma_window_ends();
    }
    value_plan(Table::Heff, log_temp)
}

/// The derivative with respect to T of the effective number of degrees of
/// freedom in entropy stored in the bath.
pub fn sm_heff_deriv(log_temp: u64) -> (plan: Plan)
    ensures
        plan == bath_slope(Table::Heff, log_temp),
        spec_is_nan(log_temp) ==> plan == Plan::Err(ThermoError::InvalidInput),
        below_window(log_temp) ==> plan == Plan::Ok(Evaluation::Constant(SM_FLAT_SLOPE)),
        inside_window(log_temp) ==> plan == Plan::Ok(Evaluation::SplineSlope(Table::Heff)),
        above_window(log_temp) ==> plan == Plan::Ok(Evaluation::Constant(SM_FLAT_SLOPE)),
{
    proof {
        lemma_window_ends();
    }
    slope_plan(Table::Heff, log_temp)
}

/// The square root of g-star, from its own table: it is not put together
/// from g_eff and h_eff.
pub fn sm_sqrt_gstar(log_temp: u64) -> (plan: Plan)
    ensures
        plan == bath_value(Table::SqrtGstar, log_temp),
        spec_is_nan(log_temp) ==> plan == Plan::Err(ThermoError::InvalidInput),
        below_window(log_temp) ==> plan == Plan::Ok(Evaluation::Constant(SM_GSTAR_FRONT)),
        inside_window(log_temp) ==> plan == Plan::Ok(Evaluation::Spline(Table::SqrtGstar)),
        above_window(log_temp) ==> plan == Plan::Ok(Evaluation::Constant(SM_GSTAR_BACK)),
{
    proof {
        lemma_window_ends();
    }
    value_plan(Table::SqrtGstar, log_temp)
}

/// A density of the bath:
/// `numerator * pi^2 / denominator * dof * T^temperature_power`.
#[derive(Clone, Copy, Debug, PartialEq, Eq)]
pub struct BathDensity {
    /// The degrees of freedom that the density is built on.
    pub dof: Evaluation,
    pub numerator: u8,
    pub denominator: u8,
    pub temperature_power: u8,
}

/// The derivative of a density of the bath with respect to T:
/// `numerator * pi^2 / denominator * T^temperature_power
///  * (T * dof_slope + dof_weight * dof)`.
#[derive(Clone, Copy, Debug, PartialEq, Eq)]
pub struct BathDensitySlope {
    /// The degrees of freedom that the density is built on.
    pub dof: Evaluation,
    /// Their derivative with respect to T.
    pub dof_slope: Evaluation,
    pub numerator: u8,
    pub denominator: u8,
    pub temperature_power: u8,
    pub dof_weight: u8,
}

/// Energy density: `pi^2 / 30 * g_eff * T^4`.
pub open spec fn energy_density_of(dof: Evaluation) -> BathDensity {
    BathDensity { dof, numerator: 1, denominator: 30, temperature_power: 4 }
}

/// Entropy density: `2 pi^2 / 45 * h_eff * T^3`.
pub open spec fn entropy_density_of(dof: Evaluation) -> BathDensity {
    BathDensity { dof, numerator: 2, denominator: 45, temperature_power: 3 }
}

/// The product rule: the derivative of `c * dof * T^n` is
/// `c * T^(n - 1) * (T * dof' + n * dof)`.
pub open spec fn product_rule(density: BathDensity, dof_slope: Evaluation) -> BathDensitySlope
    recommends
        density.temperature_power >= 1,
{
    BathDensitySlope {
        dof: density.dof,
        dof_slope,
        numerator: density.numerator,
        denominator: density.denominator,
        temperature_power: (density.temperature_power - 1) as u8,
        dof_weight: density.temperature_power,
    }
}

/// The energy density of the bath at log10 T.
pub open spec fn bath_energy_density(log_temp: u64) -> Result<BathDensity, ThermoError> {
    match bath_value(Table::Geff, log_temp) {
        Ok(dof) => Ok(energy_density_of(dof)),
        Err(e) => Err(e),
    }
}

/// The entropy density of the bath at log10 T.
pub open spec fn bath_entropy_density(log_temp: u64) -> Result<BathDensity, ThermoError> {
    match bath_value(Table::Heff, log_temp) {
        Ok(dof) => Ok(entropy_density_of(dof)),
        Err(e) => Err(e),
    }
}

/// The derivative of the energy density of the bath at log10 T.
pub open spec fn bath_energy_density_slope(log_temp: u64) -> Result<BathDensitySlope, ThermoError> {
    match (bath_value(Table::Geff, log_temp), bath_slope(Table::Geff, log_temp)) {
        (Ok(dof), Ok(dof_slope)) => Ok(product_rule(energy_density_of(dof), dof_slope)),
        _ => Err(ThermoError::InvalidInput),
    }
}

/// The derivative of the entropy density of the bath at log10 T.
pub open spec fn bath_entropy_density_slope(log_temp: u64) -> Result<
    BathDensitySlope,
    ThermoError,
> {
    match (bath_value(Table::Heff, log_temp), bath_slope(Table::Heff, log_temp)) {
        (Ok(dof), Ok(dof_slope)) => Ok(product_rule(entropy_density_of(dof), dof_slope)),
        _ => Err(ThermoError::InvalidInput),
    }
}

fn differentiate(density: BathDensity, dof_slope: Evaluation) -> (slope: BathDensitySlope)
    requires
        density.temperature_power >= 1,
    ensures
        slope == product_rule(density, dof_slope),
{
    BathDensitySlope {
        dof: density.dof,
        dof_slope,
        numerator: density.numerator,
        denominator: density.denominator,
        temperature_power: density.temperature_power - 1,
        dof_weight: density.temperature_power,
    }
}

/// The energy density of the bath, `pi^2 / 30 * g_eff(T) * T^4`, on the
/// degrees of freedom that `sm_geff` gives at the same temperature.
pub fn sm_energy_density(log_temp: u64) -> (density: Result<BathDensity, ThermoError>)
    ensures
        density == bath_energy_density(log_temp),
        spec_is_nan(log_temp) <==> density is Err,
        density matches Ok(d) ==> {
            &&& Plan::Ok(d.dof) == bath_value(Table::Geff, log_temp)
            &&& d.numerator == 1
            &&& d.denominator == 30
            &&& d.temperature_power == 4
        },
{
    match sm_geff(log_temp) {
        Ok(dof) => Ok(BathDensity { dof, numerator: 1, denominator: 30, temperature_power: 4 }),
        Err(e) => Err(e),
    }
}

/// The derivative of `sm_energy_density` with respect to T, by the product
/// rule: `pi^2 / 30 * T^3 * (T * g_eff'(T) + 4 * g_eff(T))`.
pub fn sm_energy_density_deriv(log_temp: u64) -> (slope: Result<BathDensitySlope, ThermoError>)
    ensures
        slope == bath_energy_density_slope(log_temp),
        spec_is_nan(log_temp) <==> slope is Err,
        slope matches Err(e) ==> e == ThermoError::InvalidInput,
        slope matches Ok(s) ==> {
            &&& Plan::Ok(s.dof) == bath_value(Table::Geff, log_temp)
            &&& Plan::Ok(s.dof_slope) == bath_slope(Table::Geff, log_temp)
            &&& s.numerator == 1
            &&& s.denominator == 30
            &&& s.temperature_power == 3
            &&& s.dof_weight == 4
        },
{
    let density = sm_energy_density(log_temp);
    let dof_slope = sm_geff_deriv(log_temp);
    match (density, dof_slope) {
        (Ok(d), Ok(ds)) => Ok(differentiate(d, ds)),
        _ => Err(ThermoError::InvalidInput),
    }
}

/// The entropy density of the bath, `2 pi^2 / 45 * h_eff(T) * T^3`, on the
/// degrees of freedom that `sm_heff` gives at the same temperature.
pub fn sm_entropy_density(log_temp: u64) -> (density: Result<BathDensity, ThermoError>)
    ensures
        density == bath_entropy_density(log_temp),
        spec_is_nan(log_temp) <==> density is Err,
        density matches Ok(d) ==> {
            &&& Plan::Ok(d.dof) == bath_value(Table::Heff, log_temp)
            &&& d.numerator == 2
            &&& d.denominator == 45
            &&& d.temperature_power == 3
        },
{
    match sm_heff(log_temp) {
        Ok(dof) => Ok(BathDensity { dof, numerator: 2, denominator: 45, temperature_power: 3 }),
        Err(e) => Err(e),
    }
}

/// The derivative of `sm_entropy_density` with respect to T, by the product
/// rule: `2 pi^2 / 45 * T^2 * (T * h_eff'(T) + 3 * h_eff(T))`.
pub fn sm_entropy_density_deriv(log_temp: u64) -> (slope: Result<BathDensitySlope, ThermoError>)
    ensures
        slope == bath_entropy_density_slope(log_temp),
        spec_is_nan(log_temp) <==> slope is Err,
        slope matches Err(e) ==> e == ThermoError::InvalidInput,
        slope matches Ok(s) ==> {
            &&& Plan::Ok(s.dof) == bath_value(Table::Heff, log_temp)
            &&& Plan::Ok(s.dof_slope) == bath_slope(Table::Heff, log_temp)
            &&& s.numerator == 2
            &&& s.denominator == 45
            &&& s.temperature_power == 2
            &&& s.dof_weight == 3
        },
{
    let density = sm_entropy_density(log_temp);
    let dof_slope = sm_heff_deriv(log_temp);
    match (density, dof_slope) {
        (Ok(d), Ok(ds)) => Ok(differentiate(d, ds)),
        _ => Err(ThermoError::InvalidInput),
    }
}

} // verus!
