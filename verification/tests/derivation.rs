use natural_unit::ConversionFactor;

#[test]
fn base_factors_are_kept() {
    let f = ConversionFactor::new(3.5_f64, 0.25, 1e-7, f64::powi);
    assert_eq!(f.conv_mass, 3.5);
    assert_eq!(f.conv_length, 0.25);
    assert_eq!(f.conv_time, 1e-7);
}

#[test]
fn base_factors_are_kept_when_negative() {
    let f = ConversionFactor::new(-2.0_f64, -4.0, -8.0, f64::powi);
    assert_eq!(f.conv_mass, -2.0);
    assert_eq!(f.conv_length, -4.0);
    assert_eq!(f.conv_time, -8.0);
    assert_eq!(f.conv_velocity, 0.5);
    assert_eq!(f.conv_momentum, -1.0);
    assert_eq!(f.conv_angular_velocity, -0.125);
    assert_eq!(f.conv_density, 0.03125);
}

#[test]
fn derived_factors_of_powers_of_two() {
    let f = ConversionFactor::new(2.0_f64, 4.0, 8.0, f64::powi);
    assert_eq!(f.conv_velocity, 0.5);
    assert_eq!(f.conv_momentum, 1.0);
    assert_eq!(f.conv_angular_velocity, 0.125);
    assert_eq!(f.conv_acceleration, 0.0625);
    assert_eq!(f.conv_energy, 0.5);
    assert_eq!(f.conv_energy_density, 0.0078125);
    assert_eq!(f.conv_angular_momentum, 4.0);
    assert_eq!(f.conv_force, 0.125);
    assert_eq!(f.conv_power, 0.0625);
    assert_eq!(f.conv_pressure, 0.0078125);
    assert_eq!(f.conv_density, 0.03125);
}

#[test]
fn derived_factors_of_inexact_fractions() {
    let f = ConversionFactor::new(0.1_f64, 0.3, 0.7, f64::powi);
    assert_eq!(f.conv_velocity, 0.4285714285714286);
    assert_eq!(f.conv_momentum, 0.042857142857142864);
    assert_eq!(f.conv_angular_velocity, 1.4285714285714286);
    assert_eq!(f.conv_acceleration, 0.6122448979591838);
    assert_eq!(f.conv_energy, 0.018367346938775515);
    assert_eq!(f.conv_energy_density, 0.018367346938775515 / 0.3_f64.powi(3));
    assert_eq!(f.conv_angular_momentum, 0.012857142857142859);
    assert_eq!(f.conv_force, 0.06122448979591838);
    assert_eq!(f.conv_power, 0.026239067055393594);
    assert_eq!(f.conv_pressure, 0.6802721088435376);
    assert_eq!(f.conv_density, 0.1 / 0.3_f64.powi(3));
}

#[test]
fn derived_factors_follow_the_formulas() {
    let cases: Vec<(f64, f64, f64)> = vec![
        (0.1, 0.3, 0.7),
        (1e3, 1e2, 1.0),
        (7.426160269118666e-29, 1.0, 2.99792458e10),
        (1519267444487564.5, 50677.30704845031, 5.609588603804452e32),
        (-3.0, 1.7, -0.002),
        (6.02214076e23, 1.380649e-16, 9.1093837015e-28),
    ];
    for (m, l, t) in cases {
        let f = ConversionFactor::new(m, l, t, f64::powi);
        assert_eq!(f.conv_velocity, f.conv_length / f.conv_time);
        assert_eq!(f.conv_momentum, f.conv_mass * f.conv_velocity);
        assert_eq!(f.conv_angular_velocity, 1.0 / f.conv_time);
        assert_eq!(f.conv_acceleration, f.conv_velocity / f.conv_time);
        assert_eq!(f.conv_energy, f.conv_mass * f.conv_velocity.powi(2));
        assert_eq!(f.conv_energy_density, f.conv_energy / f.conv_length.powi(3));
        assert_eq!(f.conv_angular_momentum, f.conv_momentum * f.conv_length);
        assert_eq!(f.conv_force, f.conv_mass * f.conv_acceleration);
        assert_eq!(f.conv_power, f.conv_energy / f.conv_time);
        assert_eq!(f.conv_pressure, f.conv_force / f.conv_length.powi(2));
        assert_eq!(f.conv_density, f.conv_mass / f.conv_length.powi(3));
    }
}

#[test]
fn derivation_gives_the_same_bits_twice() {
    let f = ConversionFactor::new(0.1_f64, 0.3, 0.7, f64::powi);
    let g = ConversionFactor::new(0.1_f64, 0.3, 0.7, f64::powi);
    assert_eq!(f.conv_velocity.to_bits(), g.conv_velocity.to_bits());
    assert_eq!(f.conv_energy.to_bits(), g.conv_energy.to_bits());
    assert_eq!(f.conv_energy_density.to_bits(), g.conv_energy_density.to_bits());
    assert_eq!(f.conv_pressure.to_bits(), g.conv_pressure.to_bits());
    assert_eq!(f.conv_density.to_bits(), g.conv_density.to_bits());
    assert_eq!(f, g);
}

#[test]
fn zero_time_gives_infinities() {
    let f = ConversionFactor::new(1.0_f64, 1.0, 0.0, f64::powi);
    assert_eq!(f.conv_time, 0.0);
    assert_eq!(f.conv_velocity, f64::INFINITY);
    assert_eq!(f.conv_angular_velocity, f64::INFINITY);
    assert_eq!(f.conv_acceleration, f64::INFINITY);
    assert_eq!(f.conv_energy, f64::INFINITY);
    assert_eq!(f.conv_power, f64::INFINITY);
    assert_eq!(f.conv_density, 1.0);
}

#[test]
fn zero_length_gives_infinities_and_nans() {
    let f = ConversionFactor::new(1.0_f64, 0.0, 1.0, f64::powi);
    assert_eq!(f.conv_velocity, 0.0);
    assert_eq!(f.conv_energy, 0.0);
    assert!(f.conv_energy_density.is_nan());
    assert!(f.conv_pressure.is_nan());
    assert_eq!(f.conv_density, f64::INFINITY);
}

#[test]
fn all_zero_gives_nan_velocity() {
    let f = ConversionFactor::new(0.0_f64, 0.0, 0.0, f64::powi);
    assert!(f.conv_velocity.is_nan());
    assert_eq!(f.conv_angular_velocity, f64::INFINITY);
    assert!(f.conv_momentum.is_nan());
}

#[test]
fn single_precision_is_a_scalar_too() {
    let f = ConversionFactor::new(2.0_f32, 4.0, 8.0, f32::powi);
    assert_eq!(f.conv_velocity, 0.5_f32);
    assert_eq!(f.conv_angular_velocity, 0.125_f32);
    assert_eq!(f.conv_energy_density, 0.0078125_f32);
    assert_eq!(f.conv_density, 0.03125_f32);
}

#[test]
fn powers_are_taken_by_the_function_given() {
    let exponent_itself = |_x: f64, n: i32| f64::from(n);
    let f = ConversionFactor::new(12.0_f64, 5.0, 10.0, exponent_itself);
    assert_eq!(f.conv_velocity, 0.5);
    assert_eq!(f.conv_acceleration, 0.05);
    assert_eq!(f.conv_energy, 24.0);
    assert_eq!(f.conv_energy_density, 8.0);
    assert_eq!(f.conv_force, 12.0 * 0.05);
    assert_eq!(f.conv_pressure, (12.0 * 0.05) / 2.0);
    assert_eq!(f.conv_density, 4.0);
    assert_eq!(f.conv_power, 2.4);
}

#[test]
fn powers_see_the_velocity_and_the_length() {
    let base_itself = |x: f64, _n: i32| x;
    let f = ConversionFactor::new(12.0_f64, 5.0, 10.0, base_itself);
    assert_eq!(f.conv_energy, 6.0);
    assert_eq!(f.conv_energy_density, 1.2);
    assert_eq!(f.conv_pressure, (12.0 * 0.05) / 5.0);
    assert_eq!(f.conv_density, 2.4);
}

#[test]
fn powers_by_products_may_differ_in_the_last_place() {
    let by_products = |x: f64, n: i32| if n == 2 { x * x } else { (x * x) * x };
    let f = ConversionFactor::new(0.1_f64, 0.3, 0.7, by_products);
    assert_eq!(f.conv_energy, 0.018367346938775515);
    assert_eq!(f.conv_energy_density, 0.018367346938775515 / 0.027);
    assert_eq!(f.conv_density, 0.1 / 0.027);
}

#[test]
fn reciprocal_divides_one() {
    assert_eq!(natural_unit::scalar::reciprocal(4.0_f64), 0.25);
    assert_eq!(natural_unit::scalar::reciprocal(0.7_f64), 1.0 / 0.7);
    assert_eq!(natural_unit::scalar::reciprocal(0.0_f64), f64::INFINITY);
}
