//! Quantum statistics of a species, chosen by the parity of twice its spin.

use vstd::prelude::*;

verus! {

/// The distribution that a species in equilibrium follows.
#[derive(Clone, Copy, Debug, PartialEq, Eq)]
pub enum Statistics {
    /// Whole spin: occupation `1 / (exp(z) - 1)`.
    BoseEinstein,
    /// Half-odd spin: occupation `1 / (exp(z) + 1)`.
    FermiDirac,
}

/// The statistics of a species with spin `spin2 / 2`: Bose-Einstein when
/// `spin2` is even, Fermi-Dirac when it is odd.
pub open spec fn statistics_of(spin2: nat) -> Statistics {
    if spin2 % 2 == 0 {
        Statistics::BoseEinstein
    } else {
        Statistics::FermiDirac
    }
}

impl Statistics {
    /// The sign eta in the denominator `exp(z) - eta` of every integrand:
    /// plus one for Bose-Einstein, minus one for Fermi-Dirac.
    pub open spec fn spec_eta(self) -> i8 {
        match self {
            Statistics::BoseEinstein => 1i8,
            Statistics::FermiDirac => -1i8,
        }
    }

    /// The statistics of a species with spin `spin2 / 2`.
    pub fn from_spin2(spin2: usize) -> (statistics: Statistics)
        ensures
            statistics == statistics_of(spin2 as nat),
    {
        if spin2 % 2 == 0 {
            Statistics::BoseEinstein
        } else {
            Statistics::FermiDirac
        }
    }

    /// The sign eta in the denominator `exp(z) - eta`.
    #[verifier::when_used_as_spec(spec_eta)]
    pub fn eta(self) -> (sign: i8)
        ensures
            sign == self.spec_eta(),
            sign == 1 || sign == -1,
    {
        match self {
            Statistics::BoseEinstein => 1,
            Statistics::FermiDirac => -1,
        }
    }
}

} // verus!
