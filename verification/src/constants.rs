//! The table of fundamental physical constants.

use vstd::prelude::*;

verus! {

/// The fundamental constants of physics, all in one system of units.
///
/// | field     | constant                        | CGS unit          |
/// |-----------|---------------------------------|-------------------|
/// | `c`       | speed of light                  | cm s⁻¹            |
/// | `G`       | gravitational constant          | cm³ g⁻¹ s⁻²       |
/// | `e`       | elementary charge               | C                 |
/// | `k_b`     | Boltzmann constant              | erg K⁻¹           |
/// | `N_A`     | Avogadro constant               | mol⁻¹             |
/// | `h`       | Planck constant                 | erg s             |
/// | `hbar`    | reduced Planck constant         | erg s             |
/// | `m_u`     | atomic mass unit                | g                 |
/// | `m_e`     | electron mass                   | g                 |
/// | `eV`      | electronvolt                    | erg               |
/// | `m_solar` | solar mass                      | g                 |
/// | `r_solar` | solar radius                    | cm                |
#[allow(non_snake_case)]
#[derive(Debug, Clone, Copy, PartialEq)]
pub struct FundamentalConstant<T> {
    pub c: T,
    pub G: T,
    pub e: T,
    pub k_b: T,
    pub N_A: T,
    pub h: T,
    pub hbar: T,
    pub m_u: T,
    pub m_e: T,
    pub eV: T,
    pub m_solar: T,
    pub r_solar: T,
}

} // verus!
