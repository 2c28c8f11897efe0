//! The conversion factor: its derivation from the three base factors, and
//! its application to a measurement.

use crate::dimension::Dimension;
use crate::scalar::{
    arithmetic_is_functional, arithmetic_is_total, is_neutral, power_is_functional,
    power_is_total, power_of, product_of, quotient_of, reciprocal, reciprocal_of, Scalar,
};
use core::ops::{Div, Mul};
use vstd::prelude::*;

verus! {

/// One multiplicative factor for each [`Dimension`], from a source system of
/// units to a target system.
///
/// The factors of mass, length and time are free. A factor made by
/// [`ConversionFactor::new`] is [`consistent`](ConversionFactor::consistent):
/// its other eleven factors are derived from those three.
#[derive(Debug, Clone, Copy, PartialEq)]
pub struct ConversionFactor<T> {
    pub conv_mass: T,
    pub conv_length: T,
    pub conv_time: T,
    pub conv_velocity: T,
    pub conv_momentum: T,
    pub conv_angular_velocity: T,
    pub conv_acceleration: T,
    pub conv_energy: T,
    pub conv_energy_density: T,
    pub conv_angular_momentum: T,
    pub conv_force: T,
    pub conv_power: T,
    pub conv_pressure: T,
    pub conv_density: T,
}

impl<T> ConversionFactor<T> {
    /// The factor that belongs to `dim`: the field that is named for it.
    pub open spec fn factor_of(self, dim: Dimension) -> T {
        match dim {
            Dimension::Time => self.conv_time,
            Dimension::Length => self.conv_length,
            Dimension::Mass => self.conv_mass,
            Dimension::Velocity => self.conv_velocity,
            Dimension::Momentum => self.conv_momentum,
            Dimension::AngularVelocity => self.conv_angular_velocity,
            Dimension::Acceleration => self.conv_acceleration,
            Dimension::Energy => self.conv_energy,
            Dimension::EnergyDensity => self.conv_energy_density,
            Dimension::AngularMomentum => self.conv_angular_momentum,
            Dimension::Force => self.conv_force,
            Dimension::Power => self.conv_power,
            Dimension::Pressure => self.conv_pressure,
            Dimension::Density => self.conv_density,
        }
    }

    /// The factor that belongs to `dim`.
    pub fn factor(&self, dim: Dimension) -> (r: T) where T: Copy
        ensures
            r == self.factor_of(dim),
    {
        match dim {
            Dimension::Time => self.conv_time,
            Dimension::Length => self.conv_length,
            Dimension::Mass => self.conv_mass,
            Dimension::Velocity => self.conv_velocity,
            Dimension::Momentum => self.conv_momentum,
            Dimension::AngularVelocity => self.conv_angular_velocity,
            Dimension::Acceleration => self.conv_acceleration,
            Dimension::Energy => self.conv_energy,
            Dimension::EnergyDensity => self.conv_energy_density,
            Dimension::AngularMomentum => self.conv_angular_momentum,
            Dimension::Force => self.conv_force,
            Dimension::Power => self.conv_power,
            Dimension::Pressure => self.conv_pressure,
            Dimension::Density => self.conv_density,
        }
    }
}

impl<T: Scalar> ConversionFactor<T> {
    /// The fourteen factors are those of the base factors `mass`, `length`
    /// and `time`: the three themselves, and the eleven that dimensional
    /// analysis derives from them, each by the stated operations in the
    /// stated order, with `powi` for the powers.
    ///
    /// | factor           | derivation             |
    /// |------------------|------------------------|
    /// | velocity         | length / time          |
    /// | momentum         | mass × velocity        |
    /// | angular velocity | 1 / time               |
    /// | acceleration     | velocity / time        |
    /// | energy           | mass × velocity²       |
    /// | energy density   | energy / length³       |
    /// | angular momentum | momentum × length      |
    /// | force            | mass × acceleration    |
    /// | power            | energy / time          |
    /// | pressure         | force / length²        |
    /// | density          | mass / length³         |
    pub open spec fn derived_from<P: Fn(T, i32) -> T>(
        self,
        powi: P,
        mass: T,
        length: T,
        time: T,
    ) -> bool {
        &&& self.conv_mass == mass
        &&& self.conv_length == length
        &&& self.conv_time == time
        &&& quotient_of(length, time, self.conv_velocity)
        &&& product_of(mass, self.conv_velocity, self.conv_momentum)
        &&& reciprocal_of(time, self.conv_angular_velocity)
        &&& quotient_of(self.conv_velocity, time, self.conv_acceleration)
        &&& exists|v2: T| #[trigger]
            power_of(powi, self.conv_velocity, 2, v2) && product_of(mass, v2, self.conv_energy)
        &&& exists|l3: T| #[trigger]
            power_of(powi, length, 3, l3) && quotient_of(
                self.conv_energy,
                l3,
                self.conv_energy_density,
            )
        &&& product_of(self.conv_momentum, length, self.conv_angular_momentum)
        &&& product_of(mass, self.conv_acceleration, self.conv_force)
        &&& quotient_of(self.conv_energy, time, self.conv_power)
        &&& exists|l2: T| #[trigger]
            power_of(powi, length, 2, l2) && quotient_of(self.conv_force, l2, self.conv_pressure)
        &&& exists|l3: T| #[trigger]
            power_of(powi, length, 3, l3) && quotient_of(mass, l3, self.conv_density)
    }

    /// The eleven derived factors agree with the three base factors.
    pub open spec fn consistent<P: Fn(T, i32) -> T>(self, powi: P) -> bool {
        self.derived_from(powi, self.conv_mass, self.conv_length, self.conv_time)
    }

    /// Derives all fourteen factors from the factors of mass, length and
    /// time, with `powi` for the powers. Nothing is asked of the three: a
    /// zero or a negative factor goes through the same operations as any
    /// other.
    pub fn new<P: Fn(T, i32) -> T>(
        conv_mass: T,
        conv_length: T,
        conv_time: T,
        powi: P,
    ) -> (f: Self)
        requires
            arithmetic_is_total::<T>(),
            power_is_total(powi),
        ensures
            f.derived_from(powi, conv_mass, conv_length, conv_time),
            f.consistent(powi),
    {
        let conv_velocity = conv_length / conv_time;
        let conv_momentum = conv_mass * conv_velocity;
        let conv_angular_velocity = reciprocal(conv_time);
        let conv_acceleration = conv_velocity / conv_time;
        let velocity_squared = powi(conv_velocity, 2);
        let conv_energy = conv_mass * velocity_squared;
        let length_cubed = powi(conv_length, 3);
        let conv_energy_density = conv_energy / length_cubed;
        let conv_angular_momentum = conv_momentum * conv_length;
        let conv_force = conv_mass * conv_acceleration;
        let conv_power = conv_energy / conv_time;
        let length_squared = powi(conv_length, 2);
        let conv_pressure = conv_force / length_squared;
        let length_cubed_again = powi(conv_length, 3);
        let conv_density = conv_mass / length_cubed_again;

        assert(power_of(powi, conv_velocity, 2, velocity_squared) && product_of(
            conv_mass,
            velocity_squared,
            conv_energy,
        ));
        assert(power_of(powi, conv_length, 3, length_cubed) && quotient_of(
            conv_energy,
            length_cubed,
            conv_energy_density,
        ));
        assert(power_of(powi, conv_length, 2, length_squared) && quotient_of(
            conv_force,
            length_squared,
            conv_pressure,
        ));
        assert(power_of(powi, conv_length, 3, length_cubed_again) && quotient_of(
            conv_mass,
            length_cubed_again,
            conv_density,
        ));

        ConversionFactor {
            conv_mass,
            conv_length,
            conv_time,
            conv_velocity,
            conv_momentum,
            conv_angular_velocity,
            conv_acceleration,
            conv_energy,
            conv_energy_density,
            conv_angular_momentum,
            conv_force,
            conv_power,
            conv_pressure,
            conv_density,
        }
    }
}

/// Converts `value`, a measurement of dimension `dim` in the source system,
/// into the target system: `value` times the factor of `dim`.
pub fn convert<T: Scalar>(value: T, dim: Dimension, conv_factor: ConversionFactor<T>) -> (r: T)
    requires
        call_requires(<T as Mul>::mul, (value, conv_factor.factor_of(dim))),
    ensures
        product_of(value, conv_factor.factor_of(dim), r),
{
    value * conv_factor.factor(dim)
}

/// Converts `value`, a measurement of dimension `dim` in the target system,
/// back into the source system: `value` over the factor of `dim`.
pub fn invert<T: Scalar>(value: T, dim: Dimension, conv_factor: ConversionFactor<T>) -> (r: T)
    requires
        call_requires(<T as Div>::div, (value, conv_factor.factor_of(dim))),
    ensures
        quotient_of(value, conv_factor.factor_of(dim), r),
{
    value / conv_factor.factor(dim)
}

/// The quotient of `T` undoes its product by `x`: dividing any product by
/// `x` gives back what was multiplied.
pub open spec fn quotient_undoes_product_by<T: Scalar>(x: T) -> bool {
    forall|a: T, p: T, q: T|
        #[trigger] product_of(a, x, p) && #[trigger] quotient_of(p, x, q) ==> q == a
}

/// `invert` divides by the very factor by which `convert` multiplies, so a
/// measurement that goes forth and back comes out as exact as the scalar's
/// own arithmetic makes it: where the quotient undoes the product by the
/// factor of `dim`, whatever `invert` may return for a result of `convert`
/// is the measurement that went in.
pub proof fn invert_undoes_convert<T: Scalar>(
    f: ConversionFactor<T>,
    dim: Dimension,
    value: T,
    there: T,
    back: T,
)
    requires
        quotient_undoes_product_by(f.factor_of(dim)),
        product_of(value, f.factor_of(dim), there),
        quotient_of(there, f.factor_of(dim), back),
    ensures
        back == value,
{
}

/// The factor in which every field holds the dimension that it is named for.
pub open spec fn named_fields() -> ConversionFactor<Dimension> {
    ConversionFactor {
        conv_mass: Dimension::Mass,
        conv_length: Dimension::Length,
        conv_time: Dimension::Time,
        conv_velocity: Dimension::Velocity,
        conv_momentum: Dimension::Momentum,
        conv_angular_velocity: Dimension::AngularVelocity,
        conv_acceleration: Dimension::Acceleration,
        conv_energy: Dimension::Energy,
        conv_energy_density: Dimension::EnergyDensity,
        conv_angular_momentum: Dimension::AngularMomentum,
        conv_force: Dimension::Force,
        conv_power: Dimension::Power,
        conv_pressure: Dimension::Pressure,
        conv_density: Dimension::Density,
    }
}

/// Every dimension selects the field that is named for it, and so no two
/// dimensions select the same field: where each field holds its own name,
/// the factor of a dimension is that dimension.
pub proof fn dispatch_selects_named_field(dim: Dimension)
    ensures
        named_fields().factor_of(dim) == dim,
{
}

/// A field of a factor can be set without touching what any other dimension
/// selects: the fourteen dimensions select fourteen different fields.
pub proof fn dispatch_is_injective<T>(f: ConversionFactor<T>, d1: Dimension, d2: Dimension, x: T)
    requires
        d1 != d2,
    ensures
        exists|g: ConversionFactor<T>| #[trigger]
            g.factor_of(d1) == x && g.factor_of(d2) == f.factor_of(d2),
{
    let g = match d1 {
        Dimension::Time => ConversionFactor { conv_time: x, ..f },
        Dimension::Length => ConversionFactor { conv_length: x, ..f },
        Dimension::Mass => ConversionFactor { conv_mass: x, ..f },
        Dimension::Velocity => ConversionFactor { conv_velocity: x, ..f },
        Dimension::Momentum => ConversionFactor { conv_momentum: x, ..f },
        Dimension::AngularVelocity => ConversionFactor { conv_angular_velocity: x, ..f },
        Dimension::Acceleration => ConversionFactor { conv_acceleration: x, ..f },
        Dimension::Energy => ConversionFactor { conv_energy: x, ..f },
        Dimension::EnergyDensity => ConversionFactor { conv_energy_density: x, ..f },
        Dimension::AngularMomentum => ConversionFactor { conv_angular_momentum: x, ..f },
        Dimension::Force => ConversionFactor { conv_force: x, ..f },
        Dimension::Power => ConversionFactor { conv_power: x, ..f },
        Dimension::Pressure => ConversionFactor { conv_pressure: x, ..f },
        Dimension::Density => ConversionFactor { conv_density: x, ..f },
    };
    assert(g.factor_of(d1) == x && g.factor_of(d2) == f.factor_of(d2));
}

/// The derivation is a function of the three base factors wherever the
/// arithmetic of the scalar type and `powi` are functions of their operands:
/// two factors derived from the same three are the same factor.
pub proof fn derivation_is_deterministic<T: Scalar, P: Fn(T, i32) -> T>(
    f: ConversionFactor<T>,
    g: ConversionFactor<T>,
    powi: P,
    mass: T,
    length: T,
    time: T,
)
    requires
        arithmetic_is_functional::<T>(),
        power_is_functional(powi),
        f.derived_from(powi, mass, length, time),
        g.derived_from(powi, mass, length, time),
    ensures
        f == g,
{
}

/// Derived from base factors that are all the neutral `one`, every one of
/// the fourteen factors is `one`.
pub proof fn identity_factor_is_one<T: Scalar, P: Fn(T, i32) -> T>(
    f: ConversionFactor<T>,
    powi: P,
    one: T,
    dim: Dimension,
)
    requires
        is_neutral(powi, one),
        f.derived_from(powi, one, one, one),
    ensures
        f.factor_of(dim) == one,
{
}

/// The identity factor changes nothing: with base factors that are all the
/// neutral `one`, whatever `convert` and `invert` may return for `value` in
/// any dimension is `value` itself.
pub proof fn identity_factor_converts_to_itself<T: Scalar, P: Fn(T, i32) -> T>(
    f: ConversionFactor<T>,
    powi: P,
    one: T,
    value: T,
    dim: Dimension,
    r: T,
)
    requires
        is_neutral(powi, one),
        f.derived_from(powi, one, one, one),
        product_of(value, f.factor_of(dim), r) || quotient_of(value, f.factor_of(dim), r),
    ensures
        r == value,
{
    identity_factor_is_one(f, powi, one, dim);
}

} // verus!
