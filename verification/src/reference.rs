//! Conversion factors for three common changes of unit system.

use crate::constants::FundamentalConstant;
use crate::factor::ConversionFactor;
use crate::scalar::{
    arithmetic_is_total, power_is_total, power_of, product_of, quotient_of, whole_of, Scalar,
};
use vstd::prelude::*;

verus! {

/// `f` converts from CGS to SI: a thousand for mass, a hundred for length,
/// one for time, and the derived factors that follow.
pub open spec fn is_cgs_to_si<T: Scalar, P: Fn(T, i32) -> T>(
    powi: P,
    f: ConversionFactor<T>,
) -> bool {
    &&& whole_of(1000u16, f.conv_mass)
    &&& whole_of(100u16, f.conv_length)
    &&& whole_of(1u16, f.conv_time)
    &&& f.consistent(powi)
}

/// `f` converts from CGS, with the constants `cgs`, to geometrized units
/// (c = G = 1): `G / c²` for mass, one for length, `c` for time, and the
/// derived factors that follow.
pub open spec fn is_cgs_to_geom<T: Scalar, P: Fn(T, i32) -> T>(
    powi: P,
    cgs: FundamentalConstant<T>,
    f: ConversionFactor<T>,
) -> bool {
    &&& exists|c2: T| #[trigger]
        power_of(powi, cgs.c, 2, c2) && quotient_of(cgs.G, c2, f.conv_mass)
    &&& whole_of(1u16, f.conv_length)
    &&& f.conv_time == cgs.c
    &&& f.consistent(powi)
}

/// `f` converts from CGS, with the constants `cgs`, to natural units
/// (ħ = c = 1, energies in electronvolts): `eV / ħ` for mass, `eV / (ħ × c)`
/// for length, `c² / eV` for time, and the derived factors that follow.
pub open spec fn is_cgs_to_natural<T: Scalar, P: Fn(T, i32) -> T>(
    powi: P,
    cgs: FundamentalConstant<T>,
    f: ConversionFactor<T>,
) -> bool {
    &&& quotient_of(cgs.eV, cgs.hbar, f.conv_mass)
    &&& exists|hc: T| #[trigger]
        product_of(cgs.hbar, cgs.c, hc) && quotient_of(cgs.eV, hc, f.conv_length)
    &&& exists|c2: T| #[trigger]
        power_of(powi, cgs.c, 2, c2) && quotient_of(c2, cgs.eV, f.conv_time)
    &&& f.consistent(powi)
}

/// The conversion factors that are commonly wanted.
///
/// * CGS to SI: `cgs_to_si`
/// * CGS to geometrized: `cgs_to_geom`
/// * CGS to natural: `cgs_to_natural`
pub trait DefaultFactors {
    /// From CGS to SI.
    fn cgs_to_si<T: Scalar, P: Fn(T, i32) -> T>(powi: P) -> (f: ConversionFactor<T>)
        requires
            arithmetic_is_total::<T>(),
            power_is_total(powi),
        ensures
            is_cgs_to_si(powi, f),
    ;

    /// From CGS to geometrized units, by the constants `cgs` in CGS.
    fn cgs_to_geom<T: Scalar, P: Fn(T, i32) -> T>(
        cgs: &FundamentalConstant<T>,
        powi: P,
    ) -> (f: ConversionFactor<T>)
        requires
            arithmetic_is_total::<T>(),
            power_is_total(powi),
        ensures
            is_cgs_to_geom(powi, *cgs, f),
    ;

    /// From CGS to natural units, by the constants `cgs` in CGS.
    fn cgs_to_natural<T: Scalar, P: Fn(T, i32) -> T>(
        cgs: &FundamentalConstant<T>,
        powi: P,
    ) -> (f: ConversionFactor<T>)
        requires
            arithmetic_is_total::<T>(),
            power_is_total(powi),
        ensures
            is_cgs_to_natural(powi, *cgs, f),
    ;
}

/// The factors as this library derives them.
pub struct Reference {}

impl DefaultFactors for Reference {
    fn cgs_to_si<T: Scalar, P: Fn(T, i32) -> T>(powi: P) -> (f: ConversionFactor<T>) {
        ConversionFactor::new(
            <T as From<u16>>::from(1000u16),
            <T as From<u16>>::from(100u16),
            <T as From<u16>>::from(1u16),
            powi,
        )
    }

    fn cgs_to_geom<T: Scalar, P: Fn(T, i32) -> T>(
        cgs: &FundamentalConstant<T>,
        powi: P,
    ) -> (f: ConversionFactor<T>) {
        let c_squared = powi(cgs.c, 2);
        let mass = cgs.G / c_squared;
        assert(power_of(powi, cgs.c, 2, c_squared) && quotient_of(cgs.G, c_squared, mass));
        ConversionFactor::new(mass, <T as From<u16>>::from(1u16), cgs.c, powi)
    }

    fn cgs_to_natural<T: Scalar, P: Fn(T, i32) -> T>(
        cgs: &FundamentalConstant<T>,
        powi: P,
    ) -> (f: ConversionFactor<T>) {
        let mass = cgs.eV / cgs.hbar;
        let hbar_c = cgs.hbar * cgs.c;
        let length = cgs.eV / hbar_c;
        let c_squared = powi(cgs.c, 2);
        let time = c_squared / cgs.eV;
        assert(product_of(cgs.hbar, cgs.c, hbar_c) && quotient_of(cgs.eV, hbar_c, length));
        assert(power_of(powi, cgs.c, 2, c_squared) && quotient_of(c_squared, cgs.eV, time));
        ConversionFactor::new(mass, length, time, powi)
    }
}

} // verus!
