//! Conversion factors between systems of physical units.
//!
//! A [`ConversionFactor`] holds one multiplicative factor for each
//! [`Dimension`]. Three of them, for mass, length and time, are chosen
//! freely; the other eleven follow from those three by dimensional analysis.
//! [`convert`] and [`invert`] scale a measurement by the factor of its
//! dimension, forwards and backwards.
//!
//! The library is generic over the number type: any [`Scalar`] will do, and
//! the primitive binary floating-point types are scalars. Every contract is
//! stated through the product and quotient of the scalar type itself, so it
//! holds of whatever arithmetic that type has.

pub mod constants;
pub mod dimension;
pub mod factor;
pub mod reference;
pub mod scalar;

pub use crate::constants::FundamentalConstant;
pub use crate::dimension::Dimension;
pub use crate::dimension::Dimension::{
    Acceleration, AngularMomentum, AngularVelocity, Density, Energy, EnergyDensity, Force, Length,
    Mass, Momentum, Power, Pressure, Time, Velocity,
};
pub use crate::dimension::UnitSystem;
pub use crate::factor::{convert, invert, ConversionFactor};
pub use crate::reference::{DefaultFactors, Reference};
pub use crate::scalar::Scalar;
