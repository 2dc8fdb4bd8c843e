//! A particle species in thermal equilibrium.

use vstd::prelude::*;
use crate::thermal_functions::checked;
use crate::thermal_functions::density_of;
use crate::thermal_functions::geff_of;
use crate::thermal_functions::heff_of;
use crate::thermal_functions::in_domain;
use crate::thermal_functions::Integrand;
use crate::thermal_functions::Physical;

verus! {

/// A species: its mass and its degeneracy as binary64 patterns, and twice
/// its spin. Every method takes the temperature as a binary64 pattern and
/// hands the species' own values to the function of the same name in
/// `thermal_functions`.
#[derive(Clone, Copy, Debug, PartialEq, Eq)]
pub struct ThermodynamicParticle {
    /// Mass, zero or above.
    pub m: u64,
    /// Internal degrees of freedom, above zero.
    pub g: u64,
    /// Twice the spin.
    pub spin2: usize,
}

impl ThermodynamicParticle {
    /// Whether a quantity of the species can be given at `temperature`.
    pub open spec fn admits(self, temperature: u64) -> bool {
        in_domain(temperature, self.m, self.g)
    }

    /// The equilibrium number density.
    pub fn neq(&self, temperature: u64) -> (quantity: Physical)
        ensures
            quantity == checked(
                temperature,
                self.m,
                self.g,
                density_of(Integrand::Number, self.spin2, 3),
            ),
            self.admits(temperature) <==> quantity is Ok,
    {
        crate::thermal_functions::neq(temperature, self.m, self.g, self.spin2)
    }

    /// The equilibrium energy density.
    pub fn energy_density(&self, temperature: u64) -> (quantity: Physical)
        ensures
            quantity == checked(
                temperature,
                self.m,
                self.g,
                density_of(Integrand::Energy, self.spin2, 4),
            ),
            self.admits(temperature) <==> quantity is Ok,
    {
        crate::thermal_functions::energy_density(temperature, self.m, self.g, self.spin2)
    }

    /// The equilibrium pressure.
    pub fn pressure_density(&self, temperature: u64) -> (quantity: Physical)
        ensures
            quantity == checked(
                temperature,
                self.m,
                self.g,
                density_of(Integrand::Pressure, self.spin2, 4),
            ),
            self.admits(temperature) <==> quantity is Ok,
    {
        crate::thermal_functions::pressure_density(temperature, self.m, self.g, self.spin2)
    }

    /// The equilibrium entropy density.
    pub fn entropy_density(&self, temperature: u64) -> (quantity: Physical)
        ensures
            quantity == checked(
                temperature,
                self.m,
                self.g,
                density_of(Integrand::Entropy, self.spin2, 3),
            ),
            self.admits(temperature) <==> quantity is Ok,
    {
        crate::thermal_functions::entropy_density(temperature, self.m, self.g, self.spin2)
    }

    /// The degrees of freedom stored in energy.
    pub fn g_eff(&self, temperature: u64) -> (quantity: Physical)
        ensures
            quantity == checked(temperature, self.m, self.g, geff_of(self.spin2)),
            self.admits(temperature) <==> quantity is Ok,
    {
        crate::thermal_functions::geff(temperature, self.m, self.g, self.spin2)
    }

    /// The degrees of freedom stored in entropy: built on the entropy
    /// density, not on the energy density.
    pub fn h_eff(&self, temperature: u64) -> (quantity: Physical)
        ensures
            quantity == checked(temperature, self.m, self.g, heff_of(self.spin2)),
            self.admits(temperature) <==> quantity is Ok,
    {
        crate::thermal_functions::heff(temperature, self.m, self.g, self.spin2)
    }

    /// Wherever a species admits a temperature, `h_eff` and `g_eff` give
    /// different quantities: the first is built on the entropy integral, the
    /// second on the energy integral, with the same statistics.
    pub proof fn lemma_h_eff_differs_from_g_eff(self, temperature: u64)
        requires
            self.admits(temperature),
        ensures
            checked(temperature, self.m, self.g, heff_of(self.spin2)) != checked(
                temperature,
                self.m,
                self.g,
                geff_of(self.spin2),
            ),
            heff_of(self.spin2).scaled.integrand == Integrand::Entropy,
            geff_of(self.spin2).scaled.integrand == Integrand::Energy,
            heff_of(self.spin2).scaled.statistics == geff_of(self.spin2).scaled.statistics,
    {
    }
}

} // verus!
