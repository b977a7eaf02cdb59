//! Tunable physical constants.
use crate::fixed::MAX_COEFF;
use vstd::prelude::*;

verus! {

/// The tunable constants of the simulation, in fixed-point.
///
/// `save_config` asks that each change be written back to the configuration
/// document; it is not itself stored there.
#[derive(Clone, Copy, Debug, PartialEq, Eq, Structural)]
pub struct Configuration {
    /// Propulsion force at full throttle.
    pub base_thrust: i64,
    /// Rudder deflection per control tick, in radians.
    pub rudder_turn_amount: i64,
    /// Lever arm that turns rudder deflection into torque.
    pub boat_half_length: i64,
    /// Linear drag coefficient.
    pub friction_linear_term: i64,
    /// Quadratic drag coefficient.
    pub friction_square_term: i64,
    /// Angular drag coefficient.
    pub rotational_friction: i64,
    pub save_config: bool,
}

pub open spec fn coeff_ok(x: int) -> bool {
    0 <= x <= MAX_COEFF
}

/// `x` brought into `[0, MAX_COEFF]`.
pub open spec fn clamp_coeff(x: int) -> int {
    if x < 0 {
        0
    } else if x > MAX_COEFF {
        MAX_COEFF as int
    } else {
        x
    }
}

/// Base thrust 10, rudder turn 0.01, half length 1, linear drag 0.005,
/// quadratic drag 0.000001, rotational drag 5, saving off.
pub open spec fn default_configuration() -> Configuration {
    Configuration {
        base_thrust: 10_000_000,
        rudder_turn_amount: 10_000,
        boat_half_length: 1_000_000,
        friction_linear_term: 5_000,
        friction_square_term: 1,
        rotational_friction: 5_000_000,
        save_config: false,
    }
}

impl Configuration {
    /// Every coefficient is non-negative and at most `MAX_COEFF`.
    pub open spec fn well_formed(&self) -> bool {
        &&& coeff_ok(self.base_thrust as int)
        &&& coeff_ok(self.rudder_turn_amount as int)
        &&& coeff_ok(self.boat_half_length as int)
        &&& coeff_ok(self.friction_linear_term as int)
        &&& coeff_ok(self.friction_square_term as int)
        &&& coeff_ok(self.rotational_friction as int)
    }

    pub fn is_valid(&self) -> (r: bool)
        ensures
            r == self.well_formed(),
    {
        0 <= self.base_thrust && self.base_thrust <= MAX_COEFF && 0 <= self.rudder_turn_amount
            && self.rudder_turn_amount <= MAX_COEFF && 0 <= self.boat_half_length
            && self.boat_half_length <= MAX_COEFF && 0 <= self.friction_linear_term
            && self.friction_linear_term <= MAX_COEFF && 0 <= self.friction_square_term
            && self.friction_square_term <= MAX_COEFF && 0 <= self.rotational_friction
            && self.rotational_friction <= MAX_COEFF
    }

    /// The same configuration with each coefficient clamped into `[0, MAX_COEFF]`:
    /// a negative coefficient would turn drag into acceleration.
    pub fn sanitized(&self) -> (r: Configuration)
        ensures
            r.well_formed(),
            r.base_thrust == clamp_coeff(self.base_thrust as int),
            r.rudder_turn_amount == clamp_coeff(self.rudder_turn_amount as int),
            r.boat_half_length == clamp_coeff(self.boat_half_length as int),
            r.friction_linear_term == clamp_coeff(self.friction_linear_term as int),
            r.friction_square_term == clamp_coeff(self.friction_square_term as int),
            r.rotational_friction == clamp_coeff(self.rotational_friction as int),
            r.save_config == self.save_config,
            self.well_formed() ==> r == *self,
    {
        Configuration {
            base_thrust: clamp(self.base_thrust),
            rudder_turn_amount: clamp(self.rudder_turn_amount),
            boat_half_length: clamp(self.boat_half_length),
            friction_linear_term: clamp(self.friction_linear_term),
            friction_square_term: clamp(self.friction_square_term),
            rotational_friction: clamp(self.rotational_friction),
            save_config: self.save_config,
        }
    }

    /// Whether the configuration must be written back: saving is switched on
    /// and something differs from the previously seen snapshot.
    pub fn needs_saving(&self, previous: &Configuration) -> (r: bool)
        ensures
            r == (self.save_config && *self != *previous),
    {
        self.save_config && *self != *previous
    }
}

fn clamp(x: i64) -> (r: i64)
    ensures
        r == clamp_coeff(x as int),
{
    if x < 0 {
        0
    } else if x > MAX_COEFF {
        MAX_COEFF
    } else {
        x
    }
}

impl Default for Configuration {
    fn default() -> (r: Configuration)
        ensures
            r == default_configuration(),
    {
        Configuration {
            base_thrust: 10_000_000,
            rudder_turn_amount: 10_000,
            boat_half_length: 1_000_000,
            friction_linear_term: 5_000,
            friction_square_term: 1,
            rotational_friction: 5_000_000,
            save_config: false,
        }
    }
}

} // verus!
