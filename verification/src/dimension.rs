//! The closed sets of unit systems and of physical dimensions.

use vstd::prelude::*;

verus! {

/// A system of units.
///
/// * `SI`: metre, kilogram, second
/// * `CGS`: centimetre, gram, second
/// * `Geometrized`: c = G = 1
/// * `Natural`: c = ħ = 1, energies in electronvolts
#[derive(Debug, Clone, Copy, PartialEq, Eq)]
pub enum UnitSystem {
    SI,
    CGS,
    Geometrized,
    Natural,
}

/// The physical quantity that a measurement stands for.
///
/// The three base dimensions are `Mass`, `Length` and `Time`; the others are
/// products and quotients of powers of these.
#[derive(Debug, Clone, Copy, PartialEq, Eq)]
pub enum Dimension {
    Time,
    Length,
    Mass,
    Velocity,
    Momentum,
    AngularVelocity,
    Acceleration,
    Energy,
    EnergyDensity,
    AngularMomentum,
    Force,
    Power,
    Pressure,
    Density,
}

} // verus!
