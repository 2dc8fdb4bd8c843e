//! The quantities of a species, multiplied out in binary64 with a plain
//! midpoint rule in place of an adaptive quadrature, against closed forms.

use std::f64::consts::PI;

use thermodynamics::error::ThermoError;
use thermodynamics::thermal_functions::{
    accept_outcome, energy_density, energy_density_scaled, energy_density_scaled_from,
    entropy_density, geff, heff, neq, pressure_density, Integrand, Physical, PhysicalQuantity,
    QuadratureOutcome, ScaledQuantity, QUADRATURE_EPSABS, QUADRATURE_EPSREL,
};
use thermodynamics::thermodynamic_particle::ThermodynamicParticle;

const ZETA_3: f64 = 1.2020569031595942;

fn integrand(kind: Integrand, eta: f64, x: f64, z: f64) -> f64 {
    let weight = match kind {
        Integrand::Number => z * (z * z - x * x).sqrt(),
        Integrand::Energy => z * z * (z * z - x * x).sqrt(),
        Integrand::Pressure => (z * z - x * x).powf(1.5),
        Integrand::Entropy => (4.0 * z * z - x * x) * (z * z - x * x).sqrt(),
    };
    weight / (z.exp() - eta)
}

fn midpoint_rule(quantity: ScaledQuantity, x: f64, steps: u32) -> f64 {
    let eta = f64::from(quantity.statistics.eta());
    let width = 80.0 / f64::from(steps);
    let mut sum = 0.0;
    for k in 0..steps {
        let z = x + (f64::from(k) + 0.5) * width;
        sum += integrand(quantity.integrand, eta, x, z);
    }
    sum * width
}

/// Two resolutions: the finer one is the value, their distance the estimate
/// of its error, held against the library's tolerances.
fn quadrature(quantity: ScaledQuantity, x: f64, steps: u32) -> QuadratureOutcome {
    let coarse = midpoint_rule(quantity, x, steps);
    let fine = midpoint_rule(quantity, x, 2 * steps);
    let estimate = (fine - coarse).abs();
    let bound =
        f64::from_bits(QUADRATURE_EPSABS).max(f64::from_bits(QUADRATURE_EPSREL) * fine.abs());
    QuadratureOutcome::from_estimate(fine.to_bits(), estimate.to_bits(), bound.to_bits())
}

fn normalise(quantity: ScaledQuantity, integral: u64) -> f64 {
    f64::from_bits(integral) / (f64::from(quantity.pi_squared_divisor) * PI * PI)
}

fn value(
    quantity: PhysicalQuantity,
    temperature: f64,
    mass: f64,
    g: f64,
) -> Result<f64, ThermoError> {
    let x = mass / temperature;
    let outcome = quadrature(quantity.integral_at(x.to_bits())?, x, 100_000);
    let (scaled, integral) = quantity.integral_from(x.to_bits(), outcome)?;
    let mut factor = f64::from(quantity.numerator) / f64::from(quantity.denominator);
    if quantity.over_pi_squared {
        factor /= PI * PI;
    }
    Ok(factor
        * g
        * temperature.powi(i32::from(quantity.temperature_power))
        * normalise(scaled, integral))
}

fn of(
    rule: fn(u64, u64, u64, usize) -> Physical,
    temperature: f64,
    mass: f64,
    g: f64,
    spin2: usize,
) -> f64 {
    let quantity = rule(temperature.to_bits(), mass.to_bits(), g.to_bits(), spin2).unwrap();
    value(quantity, temperature, mass, g).unwrap()
}

fn close(found: f64, expected: f64, relative: f64) -> bool {
    (found - expected).abs() <= relative * expected.abs()
}

#[test]
fn massless_bosons_store_g_degrees_of_freedom() {
    let found = of(geff, 1.0, 0.0, 2.0, 0);
    assert!(close(found, 2.0, 1e-2), "geff = {}", found);
    assert!(close(found, 2.0, 1e-6), "geff = {}", found);
    let found = of(heff, 1.0, 0.0, 2.0, 2);
    assert!(close(found, 2.0, 1e-6), "heff = {}", found);
}

#[test]
fn massless_fermions_store_seven_eighths_of_g() {
    let found = of(geff, 1.0, 0.0, 2.0, 1);
    assert!(close(found, 1.75, 1e-2), "geff = {}", found);
    assert!(close(found, 1.75, 1e-6), "geff = {}", found);
    let found = of(heff, 1.0, 0.0, 2.0, 3);
    assert!(close(found, 1.75, 1e-6), "heff = {}", found);
}

#[test]
fn the_massless_limit_does_not_depend_on_the_temperature() {
    for temperature in [1.0e-3, 1.0, 50.0, 1.0e6] {
        assert!(close(of(geff, temperature, 0.0, 2.0, 0), 2.0, 1e-6));
        assert!(close(of(geff, temperature, 0.0, 2.0, 1), 1.75, 1e-6));
    }
    let nearly_massless = of(geff, 1.0e4, 1.0, 2.0, 1);
    assert!(close(nearly_massless, 1.75, 1e-2), "geff = {}", nearly_massless);
}

#[test]
fn massless_densities_have_their_closed_forms() {
    let (t, g) = (2.0f64, 3.0f64);
    let number = of(neq, t, 0.0, g, 0);
    assert!(close(number, ZETA_3 / (PI * PI) * g * t.powi(3), 1e-6), "n = {}", number);
    let number = of(neq, t, 0.0, g, 1);
    assert!(close(number, 0.75 * ZETA_3 / (PI * PI) * g * t.powi(3), 1e-6), "n = {}", number);
    let energy = of(energy_density, t, 0.0, g, 0);
    assert!(close(energy, PI * PI / 30.0 * g * t.powi(4), 1e-6), "rho = {}", energy);
    let pressure = of(pressure_density, t, 0.0, g, 0);
    assert!(close(pressure, PI * PI / 90.0 * g * t.powi(4), 1e-6), "p = {}", pressure);
    let entropy = of(entropy_density, t, 0.0, g, 0);
    assert!(close(entropy, 2.0 * PI * PI / 45.0 * g * t.powi(3), 1e-6), "s = {}", entropy);
    let entropy = of(entropy_density, t, 0.0, g, 1);
    let expected = 0.875 * 2.0 * PI * PI / 45.0 * g * t.powi(3);
    assert!(close(entropy, expected, 1e-6), "s = {}", entropy);
}

#[test]
fn entropy_is_energy_plus_pressure_over_temperature() {
    for (t, m, spin2) in [(1.0, 0.0, 0), (1.0, 3.0, 1), (0.5, 2.0, 2), (4.0, 1.0, 3)] {
        let energy = of(energy_density, t, m, 2.0, spin2);
        let pressure = of(pressure_density, t, m, 2.0, spin2);
        let entropy = of(entropy_density, t, m, 2.0, spin2);
        assert!(close(entropy, (energy + pressure) / t, 1e-4), "{} {} {}", t, m, spin2);
    }
}

#[test]
fn every_quantity_of_a_sample_species_is_zero_or_above() {
    for mass in [0.0, 0.1, 1.0, 10.0] {
        for g in [1.0, 2.0, 4.0] {
            for spin2 in [0usize, 1, 2, 3] {
                let rules: [fn(u64, u64, u64, usize) -> Physical; 6] =
                    [neq, energy_density, pressure_density, entropy_density, geff, heff];
                for rule in rules {
                    let found = of(rule, 1.5, mass, g, spin2);
                    assert!(found >= 0.0, "{} at {} {} {}", found, mass, g, spin2);
                }
            }
        }
    }
}

#[test]
fn h_eff_and_g_eff_of_a_massive_species_are_different_numbers() {
    let species = ThermodynamicParticle { m: 5.0f64.to_bits(), g: 2.0f64.to_bits(), spin2: 1 };
    let t = 1.0f64;
    let h = value(species.h_eff(t.to_bits()).unwrap(), t, 5.0, 2.0).unwrap();
    let g = value(species.g_eff(t.to_bits()).unwrap(), t, 5.0, 2.0).unwrap();
    assert!(h > 0.0 && g > 0.0);
    assert!((h - g).abs() > 1e-3 * g, "h_eff = {}, g_eff = {}", h, g);
}

#[test]
fn a_quadrature_too_coarse_for_the_tolerance_is_an_integration_failure() {
    let x = 0.0f64;
    let asked = energy_density_scaled(x.to_bits(), 0).unwrap();
    let coarse = quadrature(asked, x, 4);
    assert!(!coarse.converged);
    assert!(f64::from_bits(coarse.value).is_finite());
    assert_eq!(accept_outcome(coarse), Err(ThermoError::IntegrationFailure));
    assert_eq!(
        energy_density_scaled_from(x.to_bits(), 0, coarse),
        Err(ThermoError::IntegrationFailure)
    );
    let fine = quadrature(asked, x, 100_000);
    assert!(fine.converged);
    let (scaled, integral) = energy_density_scaled_from(x.to_bits(), 0, fine).unwrap();
    assert_eq!(scaled, asked);
    assert!(close(normalise(scaled, integral), PI * PI / 30.0, 1e-6));
}

#[test]
fn a_quadrature_that_diverges_is_an_integration_failure() {
    let quantity = geff(1.0f64.to_bits(), 0.0f64.to_bits(), 2.0f64.to_bits(), 0).unwrap();
    let overflow = QuadratureOutcome { converged: true, value: (f64::MAX * 2.0).to_bits() };
    assert_eq!(
        quantity.integral_from(0.0f64.to_bits(), overflow),
        Err(ThermoError::IntegrationFailure)
    );
    let undefined = QuadratureOutcome { converged: true, value: (0.0f64 / 0.0f64).to_bits() };
    assert_eq!(accept_outcome(undefined), Err(ThermoError::IntegrationFailure));
}
