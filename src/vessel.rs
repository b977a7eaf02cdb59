//! The boat, its rudder, and the three stages of a simulation tick.
use crate::config::Configuration;
use crate::fixed::{
    abs, fmul, in_i64, is_isqrt, isqrt, isqrt_u128, lemma_fmul_bound, lemma_isqrt_le, mul_fixed, HALF_PI, MAX_COEFF, MAX_SPEED, UNIT,
};
use vstd::prelude::*;

verus! {

/// Rudder angle at which the boat runs straight ahead.
pub const STRAIGHT: i64 = -HALF_PI;

/// A fixed-point vector in the plane.
#[derive(Clone, Copy, Debug, PartialEq, Eq, Structural)]
pub struct Vec2 {
    pub x: i64,
    pub y: i64,
}

impl Vec2 {
    pub fn zero() -> (r: Vec2)
        ensures
            r.x == 0,
            r.y == 0,
    {
        Vec2 { x: 0, y: 0 }
    }
}

/// The boat. Angles are radians with 0 along the x axis, counter-clockwise
/// positive, and are never reduced modulo a full turn.
#[derive(Clone, Copy, Debug, PartialEq, Eq, Structural)]
pub struct Ship {
    /// Propulsion command, 0 for idle and `UNIT` for full.
    pub throttle: i64,
    /// Heading.
    pub rotation: i64,
    pub velocity: Vec2,
    /// Angular velocity, radians per second.
    pub omega: i64,
    pub pos: Vec2,
}

/// The rudder; its angle drives both torque and the direction of thrust.
#[derive(Clone, Copy, Debug, PartialEq, Eq, Structural)]
pub struct Rudder {
    pub angle: i64,
}

/// Trigonometric values of one tick, computed by the caller:
/// `(thrust_x, thrust_y)` is `(-sin a, cos a)` for the thrust angle
/// `a = rotation + rudder.angle`, and `lever` is the sine of the rudder's
/// deflection from `STRAIGHT`. Each lies in `[-UNIT, UNIT]`.
#[derive(Clone, Copy, Debug, PartialEq, Eq, Structural)]
pub struct Steering {
    pub thrust_x: i64,
    pub thrust_y: i64,
    pub lever: i64,
}

impl Steering {
    pub open spec fn well_formed(&self) -> bool {
        &&& abs(self.thrust_x as int) <= UNIT
        &&& abs(self.thrust_y as int) <= UNIT
        &&& abs(self.lever as int) <= UNIT
    }
}

/// The state of a ship as unbounded integers.
pub struct Motion {
    pub throttle: int,
    pub rotation: int,
    pub vx: int,
    pub vy: int,
    pub omega: int,
    pub px: int,
    pub py: int,
}

impl View for Ship {
    type V = Motion;

    open spec fn view(&self) -> Motion {
        Motion {
            throttle: self.throttle as int,
            rotation: self.rotation as int,
            vx: self.velocity.x as int,
            vy: self.velocity.y as int,
            omega: self.omega as int,
            px: self.pos.x as int,
            py: self.pos.y as int,
        }
    }
}

/// Every field of `m` can be stored in a `Ship`.
pub open spec fn fits(m: Motion) -> bool {
    &&& in_i64(m.throttle)
    &&& in_i64(m.rotation)
    &&& in_i64(m.vx)
    &&& in_i64(m.vy)
    &&& in_i64(m.omega)
    &&& in_i64(m.px)
    &&& in_i64(m.py)
}

/// Velocity gained over `dt` per unit of thrust direction: base thrust times
/// throttle times `dt` (unit mass).
pub open spec fn impulse(c: Configuration, throttle: int, dt: int) -> int {
    fmul(fmul(c.base_thrust as int, throttle), dt)
}

/// Angular velocity lost over `dt`: lever times half length times thrust times
/// throttle times `dt`. Turning needs thrust.
pub open spec fn turn_impulse(c: Configuration, throttle: int, dt: int, lever: int) -> int {
    fmul(fmul(impulse(c, throttle, dt), c.boat_half_length as int), lever)
}

/// Propulsion stage: thrust along the steering direction, torque from the rudder.
pub open spec fn propelled(m: Motion, c: Configuration, dt: int, st: Steering) -> Motion {
    let b = impulse(c, m.throttle, dt);
    Motion {
        vx: m.vx + fmul(b, st.thrust_x as int),
        vy: m.vy + fmul(b, st.thrust_y as int),
        omega: m.omega - turn_impulse(c, m.throttle, dt, st.lever as int),
        ..m
    }
}

/// Fraction of the velocity that drag removes over `dt`:
/// `(linear * |v| + square * |v|^2) * dt`, with `|v|` the Euclidean length.
pub open spec fn drag_fraction(c: Configuration, vx: int, vy: int, dt: int) -> int {
    let mag = isqrt(vx * vx + vy * vy);
    fmul(
        fmul(c.friction_linear_term as int, mag) + fmul(
            fmul(c.friction_square_term as int, mag),
            mag,
        ),
        dt,
    )
}

/// Fraction of the angular velocity that drag removes over `dt`.
pub open spec fn spin_fraction(c: Configuration, dt: int) -> int {
    fmul(c.rotational_friction as int, dt)
}

/// Drag stage.
pub open spec fn damped(m: Motion, c: Configuration, dt: int) -> Motion {
    let k = drag_fraction(c, m.vx, m.vy, dt);
    Motion {
        vx: m.vx - fmul(m.vx, k),
        vy: m.vy - fmul(m.vy, k),
        omega: m.omega - fmul(m.omega, spin_fraction(c, dt)),
        ..m
    }
}

/// Integration stage: position follows velocity, heading follows omega.
pub open spec fn advanced(m: Motion, dt: int) -> Motion {
    Motion {
        px: m.px + fmul(m.vx, dt),
        py: m.py + fmul(m.vy, dt),
        rotation: m.rotation + fmul(m.omega, dt),
        ..m
    }
}

/// When the propulsion stage can run: a throttle within bounds and a result
/// that fits.
pub open spec fn propel_ok(m: Motion, c: Configuration, dt: int, st: Steering) -> bool {
    abs(m.throttle) <= MAX_COEFF && fits(propelled(m, c, dt, st))
}

/// When the drag stage can run: velocity components within `MAX_SPEED`.
pub open spec fn damp_ok(m: Motion, c: Configuration, dt: int) -> bool {
    abs(m.vx) <= MAX_SPEED && abs(m.vy) <= MAX_SPEED && fits(damped(m, c, dt))
}

pub open spec fn advance_ok(m: Motion, dt: int) -> bool {
    fits(advanced(m, dt))
}

/// A full tick: propulsion, then drag, then integration.
pub open spec fn ticked(m: Motion, c: Configuration, dt: int, st: Steering) -> Motion {
    advanced(damped(propelled(m, c, dt, st), c, dt), dt)
}

pub open spec fn tick_ok(m: Motion, c: Configuration, dt: int, st: Steering) -> bool {
    let p = propelled(m, c, dt, st);
    propel_ok(m, c, dt, st) && damp_ok(p, c, dt) && advance_ok(damped(p, c, dt), dt)
}

fn in_range(x: i128) -> (r: bool)
    ensures
        r == in_i64(x as int),
{
    i64::MIN as i128 <= x && x <= i64::MAX as i128
}

impl Ship {
    /// Thrust angle: heading plus rudder angle.
    pub fn thrust_angle(&self, rudder: &Rudder) -> (r: i128)
        ensures
            r == self.rotation + rudder.angle,
    {
        self.rotation as i128 + rudder.angle as i128
    }

    /// Propulsion stage. Returns false, changing nothing, where the throttle is
    /// out of bounds or the result would not fit.
    pub fn propel(&mut self, c: &Configuration, dt: i64, st: &Steering) -> (r: bool)
        requires
            c.well_formed(),
            0 <= dt <= MAX_COEFF,
            st.well_formed(),
        ensures
            r == propel_ok(old(self)@, *c, dt as int, *st),
            r ==> final(self)@ == propelled(old(self)@, *c, dt as int, *st),
            !r ==> *final(self) == *old(self),
    {
        if self.throttle < -MAX_COEFF || self.throttle > MAX_COEFF {
            return false;
        }
        let ghost m = self@;
        let ghost a_max: int = (MAX_COEFF * MAX_COEFF) / (UNIT as int);
        let ghost b_max: int = (a_max * MAX_COEFF) / (UNIT as int);
        let ghost l_max: int = (b_max * MAX_COEFF) / (UNIT as int);
        proof {
            lemma_fmul_bound(c.base_thrust as int, m.throttle, MAX_COEFF as int, MAX_COEFF as int);
        }
        let a = mul_fixed(c.base_thrust as i128, self.throttle as i128);
        proof {
            lemma_fmul_bound(a as int, dt as int, a_max, MAX_COEFF as int);
        }
        let b = mul_fixed(a, dt as i128);
        proof {
            lemma_fmul_bound(b as int, st.thrust_x as int, b_max, UNIT as int);
            lemma_fmul_bound(b as int, st.thrust_y as int, b_max, UNIT as int);
            lemma_fmul_bound(b as int, c.boat_half_length as int, b_max, MAX_COEFF as int);
        }
        let vx = self.velocity.x as i128 + mul_fixed(b, st.thrust_x as i128);
        let vy = self.velocity.y as i128 + mul_fixed(b, st.thrust_y as i128);
        let arm = mul_fixed(b, c.boat_half_length as i128);
        proof {
            lemma_fmul_bound(arm as int, st.lever as int, l_max, UNIT as int);
        }
        let omega = self.omega as i128 - mul_fixed(arm, st.lever as i128);
        if !(in_range(vx) && in_range(vy) && in_range(omega)) {
            return false;
        }
        self.velocity = Vec2 { x: vx as i64, y: vy as i64 };
        self.omega = omega as i64;
        true
    }

    /// Drag stage. Returns false, changing nothing, where a velocity component
    /// exceeds `MAX_SPEED` or the result would not fit.
    pub fn apply_friction(&mut self, c: &Configuration, dt: i64) -> (r: bool)
        requires
            c.well_formed(),
            0 <= dt <= MAX_COEFF,
        ensures
            r == damp_ok(old(self)@, *c, dt as int),
            r ==> final(self)@ == damped(old(self)@, *c, dt as int),
            !r ==> *final(self) == *old(self),
    {
        if self.velocity.x < -MAX_SPEED || self.velocity.x > MAX_SPEED || self.velocity.y
            < -MAX_SPEED || self.velocity.y > MAX_SPEED {
            return false;
        }
        let vx = self.velocity.x as i128;
        let vy = self.velocity.y as i128;
        let ghost mag_max: int = 0x200_0000_0000;
        proof {
            lemma_fmul_bound(vx as int, vx as int, MAX_SPEED as int, MAX_SPEED as int);
            lemma_fmul_bound(vy as int, vy as int, MAX_SPEED as int, MAX_SPEED as int);
        }
        let sum: i128 = vx * vx + vy * vy;
        proof {
            assert(vx * vx >= 0 && vy * vy >= 0) by (nonlinear_arith);
        }
        let root = isqrt_u128(sum as u128);
        proof {
            lemma_isqrt_le(sum as int, root as int, mag_max);
        }
        let mag = root as i128;
        let ghost lin_max: int = (MAX_COEFF * mag_max) / (UNIT as int);
        let ghost sq_max: int = (lin_max * mag_max) / (UNIT as int);
        let ghost rate_max: int = lin_max + sq_max;
        let ghost k_max: int = (rate_max * MAX_COEFF) / (UNIT as int);
        let ghost spin_max: int = (MAX_COEFF * MAX_COEFF) / (UNIT as int);
        proof {
            lemma_fmul_bound(c.friction_linear_term as int, mag as int, MAX_COEFF as int, mag_max);
            lemma_fmul_bound(c.friction_square_term as int, mag as int, MAX_COEFF as int, mag_max);
        }
        let lin = mul_fixed(c.friction_linear_term as i128, mag);
        let sq1 = mul_fixed(c.friction_square_term as i128, mag);
        proof {
            lemma_fmul_bound(sq1 as int, mag as int, lin_max, mag_max);
        }
        let rate = lin + mul_fixed(sq1, mag);
        proof {
            lemma_fmul_bound(rate as int, dt as int, rate_max, MAX_COEFF as int);
        }
        let k = mul_fixed(rate, dt as i128);
        proof {
            lemma_fmul_bound(vx as int, k as int, MAX_SPEED as int, k_max);
            lemma_fmul_bound(vy as int, k as int, MAX_SPEED as int, k_max);
            lemma_fmul_bound(c.rotational_friction as int, dt as int, MAX_COEFF as int, MAX_COEFF as int);
        }
        let nvx = vx - mul_fixed(vx, k);
        let nvy = vy - mul_fixed(vy, k);
        let spin = mul_fixed(c.rotational_friction as i128, dt as i128);
        proof {
            lemma_fmul_bound(self.omega as int, spin as int, 0x8000_0000_0000_0000, spin_max);
        }
        let nomega = self.omega as i128 - mul_fixed(self.omega as i128, spin);
        if !(in_range(nvx) && in_range(nvy) && in_range(nomega)) {
            return false;
        }
        self.velocity = Vec2 { x: nvx as i64, y: nvy as i64 };
        self.omega = nomega as i64;
        true
    }

    /// Integration stage. Returns false, changing nothing, where the result
    /// would not fit.
    pub fn integrate(&mut self, dt: i64) -> (r: bool)
        requires
            0 <= dt <= MAX_COEFF,
        ensures
            r == advance_ok(old(self)@, dt as int),
            r ==> final(self)@ == advanced(old(self)@, dt as int),
            !r ==> *final(self) == *old(self),
    {
        let ghost big: int = 0x8000_0000_0000_0000;
        proof {
            lemma_fmul_bound(self.velocity.x as int, dt as int, big, MAX_COEFF as int);
            lemma_fmul_bound(self.velocity.y as int, dt as int, big, MAX_COEFF as int);
            lemma_fmul_bound(self.omega as int, dt as int, big, MAX_COEFF as int);
        }
        let px = self.pos.x as i128 + mul_fixed(self.velocity.x as i128, dt as i128);
        let py = self.pos.y as i128 + mul_fixed(self.velocity.y as i128, dt as i128);
        let rot = self.rotation as i128 + mul_fixed(self.omega as i128, dt as i128);
        if !(in_range(px) && in_range(py) && in_range(rot)) {
            return false;
        }
        self.pos = Vec2 { x: px as i64, y: py as i64 };
        self.rotation = rot as i64;
        true
    }

    /// Propulsion followed by integration, without drag. Returns false,
    /// changing nothing, where either stage cannot run.
    pub fn update(&mut self, c: &Configuration, dt: i64, st: &Steering) -> (r: bool)
        requires
            c.well_formed(),
            0 <= dt <= MAX_COEFF,
            st.well_formed(),
        ensures
            r == (propel_ok(old(self)@, *c, dt as int, *st) && advance_ok(
                propelled(old(self)@, *c, dt as int, *st),
                dt as int,
            )),
            r ==> final(self)@ == advanced(propelled(old(self)@, *c, dt as int, *st), dt as int),
            !r ==> *final(self) == *old(self),
    {
        let mut next = *self;
        if !next.propel(c, dt, st) {
            return false;
        }
        if !next.integrate(dt) {
            return false;
        }
        *self = next;
        true
    }

    /// One full tick: propulsion, then drag, then integration. Returns false,
    /// changing nothing, where any stage cannot run.
    pub fn step(&mut self, c: &Configuration, dt: i64, st: &Steering) -> (r: bool)
        requires
            c.well_formed(),
            0 <= dt <= MAX_COEFF,
            st.well_formed(),
        ensures
            r == tick_ok(old(self)@, *c, dt as int, *st),
            r ==> final(self)@ == ticked(old(self)@, *c, dt as int, *st),
            !r ==> *final(self) == *old(self),
    {
        let mut next = *self;
        if !next.propel(c, dt, st) {
            return false;
        }
        if !next.apply_friction(c, dt) {
            return false;
        }
        if !next.integrate(dt) {
            return false;
        }
        *self = next;
        true
    }
}

impl Default for Ship {
    /// At rest at the origin, heading along the x axis, throttle idle.
    fn default() -> (r: Ship)
        ensures
            r@ == (Motion { throttle: 0, rotation: 0, vx: 0, vy: 0, omega: 0, px: 0, py: 0 }),
    {
        Ship { throttle: 0, rotation: 0, velocity: Vec2::zero(), omega: 0, pos: Vec2::zero() }
    }
}

impl Rudder {
    /// Signed deflection from straight ahead.
    pub fn deflection(&self) -> (r: i128)
        ensures
            r == self.angle - STRAIGHT,
    {
        self.angle as i128 - STRAIGHT as i128
    }
}

impl Default for Rudder {
    /// Straight ahead.
    fn default() -> (r: Rudder)
        ensures
            r.angle == STRAIGHT,
    {
        Rudder { angle: STRAIGHT }
    }
}

/// Control intent of one tick: the throttle is full while `forward` is held and
/// idle otherwise; `port` and `starboard` each move the rudder by the
/// configured turn amount, in opposite directions.
pub fn apply_input(
    ship: &mut Ship,
    rudder: &mut Rudder,
    c: &Configuration,
    forward: bool,
    port: bool,
    starboard: bool,
)
    requires
        c.well_formed(),
        in_i64(old(rudder).angle - c.rudder_turn_amount),
        in_i64(old(rudder).angle + c.rudder_turn_amount),
    ensures
        final(ship).throttle == (if forward { UNIT } else { 0 }),
        final(ship).rotation == old(ship).rotation,
        final(ship).velocity == old(ship).velocity,
        final(ship).omega == old(ship).omega,
        final(ship).pos == old(ship).pos,
        final(rudder).angle == old(rudder).angle - (if port { c.rudder_turn_amount as int } else { 0 })
            + (if starboard { c.rudder_turn_amount as int } else { 0 }),
{
    ship.throttle = if forward { UNIT } else { 0 };
    if port {
        rudder.angle = rudder.angle - c.rudder_turn_amount;
    }
    if starboard {
        rudder.angle = rudder.angle + c.rudder_turn_amount;
    }
}

} // verus!
