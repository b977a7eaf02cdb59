use boat_physics::{apply_input, isqrt_u128, mul_fixed, Configuration, Rudder, Ship, MAX_COEFF, STRAIGHT, UNIT};

#[test]
fn default_configuration_values() {
    let c = Configuration::default();
    assert_eq!(c.base_thrust, 10 * UNIT);
    assert_eq!(c.rudder_turn_amount, UNIT / 100);
    assert_eq!(c.boat_half_length, UNIT);
    assert_eq!(c.friction_linear_term, 5_000);
    assert_eq!(c.friction_square_term, 1);
    assert_eq!(c.rotational_friction, 5 * UNIT);
    assert!(!c.save_config);
    assert!(c.is_valid());
}

#[test]
fn negative_coefficients_are_clamped() {
    let c = Configuration {
        friction_linear_term: -7,
        rotational_friction: i64::MAX,
        ..Configuration::default()
    };
    assert!(!c.is_valid());
    let s = c.sanitized();
    assert!(s.is_valid());
    assert_eq!(s.friction_linear_term, 0);
    assert_eq!(s.rotational_friction, MAX_COEFF);
    assert_eq!(s.base_thrust, c.base_thrust);
}

#[test]
fn valid_configuration_is_kept() {
    let c = Configuration::default();
    assert_eq!(c.sanitized(), c);
}

#[test]
fn saving_needs_flag_and_change() {
    let old = Configuration::default();
    let same = Configuration::default();
    assert!(!same.needs_saving(&old));
    let changed = Configuration {
        base_thrust: 20 * UNIT,
        ..Configuration::default()
    };
    assert!(!changed.needs_saving(&old));
    let flagged = Configuration {
        save_config: true,
        ..Configuration::default()
    };
    assert!(flagged.needs_saving(&old));
    assert!(!flagged.needs_saving(&flagged));
    let flagged_changed = Configuration {
        base_thrust: 20 * UNIT,
        ..flagged
    };
    assert!(flagged_changed.needs_saving(&flagged));
}

#[test]
fn defaults_of_ship_and_rudder() {
    let s = Ship::default();
    assert_eq!(s.throttle, 0);
    assert_eq!(s.rotation, 0);
    assert_eq!((s.velocity.x, s.velocity.y, s.pos.x, s.pos.y, s.omega), (0, 0, 0, 0, 0));
    assert_eq!(Rudder::default().angle, STRAIGHT);
    assert_eq!(STRAIGHT, -1_570_796);
}

#[test]
fn input_sets_throttle_and_turns_rudder() {
    let c = Configuration::default();
    let mut ship = Ship::default();
    let mut rudder = Rudder::default();
    apply_input(&mut ship, &mut rudder, &c, true, true, false);
    assert_eq!(ship.throttle, UNIT);
    assert_eq!(rudder.angle, STRAIGHT - 10_000);
    apply_input(&mut ship, &mut rudder, &c, false, false, true);
    assert_eq!(ship.throttle, 0);
    assert_eq!(rudder.angle, STRAIGHT);
    apply_input(&mut ship, &mut rudder, &c, true, true, true);
    assert_eq!(rudder.angle, STRAIGHT);
}

#[test]
fn fixed_products_round_toward_zero() {
    assert_eq!(mul_fixed(3 * UNIT as i128 / 2, -2 * UNIT as i128), -3 * UNIT as i128);
    assert_eq!(mul_fixed(-1, 1), 0);
    assert_eq!(mul_fixed(-1_500_000, 1), -1);
    assert_eq!(mul_fixed(1_999_999, 1), 1);
}

#[test]
fn integer_square_roots() {
    assert_eq!(isqrt_u128(0), 0);
    assert_eq!(isqrt_u128(15), 3);
    assert_eq!(isqrt_u128(16), 4);
    assert_eq!(isqrt_u128(u128::MAX), u64::MAX as u128);
}
