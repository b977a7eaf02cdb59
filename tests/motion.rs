use boat_physics::{Configuration, Rudder, Ship, Steering, Vec2, HALF_PI, PI, UNIT};
use std::f64::consts::PI as PI_F64;

const TWO_PI_F64: f64 = 2.0 * PI_F64;

fn to_real(x: i128) -> f64 {
    x as f64 / UNIT as f64
}

fn to_fixed(x: f64) -> i64 {
    (x * UNIT as f64).round() as i64
}

/// The sines and cosines that a tick of `ship` with `rudder` needs.
fn steering(ship: &Ship, rudder: &Rudder) -> Steering {
    let a = to_real(ship.thrust_angle(rudder));
    let d = to_real(rudder.deflection());
    Steering {
        thrust_x: to_fixed(-a.sin()),
        thrust_y: to_fixed(a.cos()),
        lever: to_fixed(d.sin()),
    }
}

fn full_throttle() -> Ship {
    Ship {
        throttle: UNIT,
        ..Ship::default()
    }
}

fn speed(ship: &Ship) -> f64 {
    to_real(ship.velocity.x as i128).hypot(to_real(ship.velocity.y as i128))
}

fn direction(ship: &Ship) -> f64 {
    (ship.velocity.y as f64).atan2(ship.velocity.x as f64)
}

fn angles_close(a: f64, b: f64) -> bool {
    let epsilon = 1e-6;
    ((a - b + PI_F64).rem_euclid(TWO_PI_F64) - PI_F64).abs() < epsilon
}

fn assert_angles_eq(a: f64, b: f64) {
    assert!(angles_close(a, b));
}

#[test]
fn up() {
    let mut ship = Ship {
        throttle: UNIT,
        rotation: HALF_PI,
        ..Ship::default()
    };
    let config = Configuration::default();
    let rudder = Rudder::default();
    let st = steering(&ship, &rudder);
    assert!(ship.update(&config, UNIT / 60, &st));

    assert!(speed(&ship) > 0.0);
    assert!((direction(&ship) - PI_F64 / 2.0).abs() < 1e-6);
}

#[test]
fn left() {
    let mut ship = Ship {
        throttle: UNIT,
        rotation: PI,
        velocity: Vec2::zero(),
        omega: 0,
        pos: Vec2::zero(),
    };
    let config = Configuration::default();
    let rudder = Rudder::default();
    let st = steering(&ship, &rudder);

    assert!(ship.update(&config, UNIT / 60, &st));

    assert!(speed(&ship) > 0.0);

    assert_angles_eq(direction(&ship), PI_F64);
}

#[test]
fn rotate_rudder_straight() {
    let mut ship = full_throttle();
    let config = Configuration::default();
    let rudder = Rudder::default();
    let st = steering(&ship, &rudder);

    assert!(ship.update(&config, UNIT / 60, &st));

    assert!(to_real(ship.omega as i128).abs() < 1e-6);
}

#[test]
fn rotate_rudder_left() {
    let mut ship = full_throttle();
    let config = Configuration::default();
    let rudder = Rudder {
        angle: to_fixed(-PI_F64 * 3.0 / 4.0),
    };
    let st = steering(&ship, &rudder);

    assert!(ship.update(&config, UNIT / 60, &st));

    assert!(ship.omega > 0);
}

#[test]
fn rotate_rudder_right() {
    let mut ship = full_throttle();
    let config = Configuration::default();
    let rudder = Rudder {
        angle: to_fixed(-PI_F64 / 4.0),
    };
    let st = steering(&ship, &rudder);

    assert!(ship.update(&config, UNIT / 60, &st));

    assert!(ship.omega < 0);
}

#[test]
fn zerp_and_zero() {
    assert_angles_eq(0.0, 0.0);
}

#[test]
fn zero_and_half_turn() {
    assert!(!angles_close(0.0, PI_F64));
}

#[test]
fn half_turn_and_many() {
    assert_angles_eq(PI_F64, 9.0 * PI_F64);
}

#[test]
fn full_tick_with_defaults_heads_up() {
    let mut ship = Ship {
        throttle: UNIT,
        rotation: HALF_PI,
        ..Ship::default()
    };
    let config = Configuration::default();
    let rudder = Rudder::default();
    let st = steering(&ship, &rudder);
    assert_eq!((st.thrust_x, st.thrust_y, st.lever), (0, UNIT, 0));
    assert!(ship.step(&config, UNIT / 60, &st));

    assert!(speed(&ship) > 0.0);
    assert!(angles_close(direction(&ship), PI_F64 / 2.0));
    // impulse 10 * 16666 = 166660; drag removes 166660 * 13 / 10^6 = 2
    assert_eq!(ship.velocity, Vec2 { x: 0, y: 166_658 });
    assert_eq!(ship.pos, Vec2 { x: 0, y: 2_777 });
    assert_eq!(ship.omega, 0);
    assert_eq!(ship.rotation, HALF_PI);
}

#[test]
fn straight_rudder_has_zero_lever() {
    let rudder = Rudder::default();
    assert_eq!(rudder.deflection(), 0);
    let ship = full_throttle();
    let st = steering(&ship, &rudder);
    assert_eq!(st.lever, 0);
}

#[test]
fn thrust_angle_adds_rudder_to_heading() {
    let ship = Ship {
        rotation: PI,
        ..Ship::default()
    };
    let rudder = Rudder::default();
    assert_eq!(ship.thrust_angle(&rudder), (PI - HALF_PI) as i128);
}

#[test]
fn propulsion_exact_values() {
    let mut ship = full_throttle();
    let config = Configuration::default();
    let st = Steering {
        thrust_x: 600_000,
        thrust_y: -800_000,
        lever: 500_000,
    };
    assert!(ship.propel(&config, UNIT / 10, &st));
    // impulse 10 * 0.1 = 1
    assert_eq!(ship.velocity, Vec2 { x: 600_000, y: -800_000 });
    // turn impulse 1 * 1 * 0.5
    assert_eq!(ship.omega, -500_000);
    assert_eq!(ship.pos, Vec2::zero());
}

#[test]
fn idle_throttle_neither_pushes_nor_turns() {
    let mut ship = Ship::default();
    let config = Configuration::default();
    let st = Steering {
        thrust_x: 0,
        thrust_y: UNIT,
        lever: UNIT,
    };
    let before = ship;
    assert!(ship.propel(&config, UNIT / 60, &st));
    assert_eq!(ship, before);
}

#[test]
fn integration_exact_values() {
    let mut ship = Ship {
        velocity: Vec2 {
            x: 2 * UNIT,
            y: -3 * UNIT,
        },
        omega: UNIT / 2,
        ..Ship::default()
    };
    assert!(ship.integrate(UNIT / 2));
    assert_eq!(ship.pos, Vec2 { x: UNIT, y: -3 * UNIT / 2 });
    assert_eq!(ship.rotation, UNIT / 4);
}

#[test]
fn friction_exact_values() {
    let mut ship = Ship {
        velocity: Vec2 {
            x: 3 * UNIT,
            y: 4 * UNIT,
        },
        omega: 2 * UNIT,
        ..Ship::default()
    };
    let config = Configuration {
        friction_linear_term: UNIT / 10,
        friction_square_term: UNIT / 100,
        rotational_friction: UNIT,
        ..Configuration::default()
    };
    assert!(ship.apply_friction(&config, UNIT / 10));
    // |v| = 5: (0.1 * 5 + 0.01 * 25) * 0.1 = 0.075 of the velocity goes
    assert_eq!(ship.velocity, Vec2 { x: 2_775_000, y: 3_700_000 });
    // 1 * 0.1 of the spin goes
    assert_eq!(ship.omega, 1_800_000);
}

#[test]
fn friction_never_reverses_and_decays() {
    let mut ship = Ship {
        velocity: Vec2 {
            x: 500 * UNIT,
            y: -300 * UNIT,
        },
        omega: -2 * UNIT,
        ..Ship::default()
    };
    let config = Configuration::default();
    let first = ship;
    for _ in 0..600 {
        let before = ship;
        assert!(ship.apply_friction(&config, UNIT / 60));
        assert!(ship.velocity.x >= 0 && ship.velocity.x <= before.velocity.x);
        assert!(ship.velocity.y <= 0 && ship.velocity.y >= before.velocity.y);
        assert!(ship.omega <= 0 && ship.omega >= before.omega);
    }
    assert!(ship.velocity.x < first.velocity.x);
    assert!(ship.velocity.y > first.velocity.y);
    // decays until one step's share rounds to zero: |omega| * 83_330 < 10^6
    assert!(ship.omega <= 0 && ship.omega > -12 - 1);
}

#[test]
fn zero_state_stays_put() {
    let mut ship = Ship::default();
    let config = Configuration::default();
    let st = Steering {
        thrust_x: 0,
        thrust_y: 0,
        lever: 0,
    };
    assert!(ship.step(&config, 0, &st));
    assert_eq!(ship, Ship::default());
}

#[test]
fn propulsion_refuses_overflow() {
    let mut ship = Ship {
        throttle: UNIT,
        velocity: Vec2 { x: i64::MAX, y: 0 },
        ..Ship::default()
    };
    let before = ship;
    let st = Steering {
        thrust_x: UNIT,
        thrust_y: 0,
        lever: 0,
    };
    assert!(!ship.propel(&Configuration::default(), UNIT, &st));
    assert_eq!(ship, before);
}

#[test]
fn propulsion_refuses_huge_throttle() {
    let mut ship = Ship {
        throttle: i64::MAX,
        ..Ship::default()
    };
    let before = ship;
    let st = Steering {
        thrust_x: UNIT,
        thrust_y: 0,
        lever: 0,
    };
    assert!(!ship.propel(&Configuration::default(), UNIT, &st));
    assert_eq!(ship, before);
}

#[test]
fn friction_refuses_excess_speed() {
    let mut ship = Ship {
        velocity: Vec2 {
            x: boat_physics::MAX_SPEED + 1,
            y: 0,
        },
        ..Ship::default()
    };
    let before = ship;
    assert!(!ship.apply_friction(&Configuration::default(), UNIT));
    assert_eq!(ship, before);
}

#[test]
fn integration_refuses_overflow() {
    let mut ship = Ship {
        velocity: Vec2 { x: UNIT, y: 0 },
        pos: Vec2 { x: i64::MAX, y: 0 },
        ..Ship::default()
    };
    let before = ship;
    assert!(!ship.integrate(UNIT));
    assert_eq!(ship, before);
}

#[test]
fn step_refuses_without_partial_change() {
    let mut ship = Ship {
        throttle: UNIT,
        pos: Vec2 { x: i64::MAX, y: 0 },
        ..Ship::default()
    };
    let before = ship;
    let st = Steering {
        thrust_x: UNIT,
        thrust_y: 0,
        lever: 0,
    };
    assert!(!ship.step(&Configuration::default(), UNIT, &st));
    assert_eq!(ship, before);
}
