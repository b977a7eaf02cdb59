//! Properties of the simulation stages, proved over their specifications.
use crate::config::{default_configuration, Configuration};
use crate::fixed::{
    abs, fmul, isqrt, lemma_fmul_fraction, lemma_fmul_monotone, lemma_fmul_nonneg,
    lemma_fmul_residue, lemma_fmul_sign, lemma_fmul_unit, lemma_fmul_zero, lemma_isqrt_exists,
    lemma_isqrt_monotone, UNIT,
};
use crate::vessel::{
    damped, drag_fraction, impulse, propelled, spin_fraction, turn_impulse, Motion, Steering,
};
use vstd::prelude::*;

verus! {

/// `b` lies between zero and `a`: no sign change and no growth.
pub open spec fn shrinks(a: int, b: int) -> bool {
    &&& a >= 0 ==> 0 <= b <= a
    &&& a <= 0 ==> a <= b <= 0
}

/// Drag removes at most the whole velocity and the whole spin in one step.
pub open spec fn drag_gentle(m: Motion, c: Configuration, dt: int) -> bool {
    drag_fraction(c, m.vx, m.vy, dt) <= UNIT && spin_fraction(c, dt) <= UNIT
}

/// The drag stage applied `n` times.
pub open spec fn dragged(m: Motion, c: Configuration, dt: int, n: nat) -> Motion
    decreases n,
{
    if n == 0 {
        m
    } else {
        damped(dragged(m, c, dt, (n - 1) as nat), c, dt)
    }
}

/// Propulsion never produces a negative impulse from non-negative inputs.
pub proof fn lemma_impulse_nonneg(c: Configuration, throttle: int, dt: int)
    requires
        c.well_formed(),
        0 <= throttle,
        0 <= dt,
    ensures
        impulse(c, throttle, dt) >= 0,
{
    lemma_fmul_nonneg(c.base_thrust as int, throttle);
    lemma_fmul_nonneg(fmul(c.base_thrust as int, throttle), dt);
}

/// With the default configuration at full throttle the impulse is ten times
/// the time step: positive for every positive step.
pub proof fn lemma_default_impulse(dt: int)
    requires
        0 <= dt,
    ensures
        impulse(default_configuration(), UNIT as int, dt) == 10 * dt,
{
    lemma_fmul_unit(10_000_000);
    assert(10_000_000 * dt / 1_000_000 == 10 * dt) by (nonlinear_arith);
}

/// From rest, propulsion drives the boat along the thrust direction: each
/// velocity component is the impulse times the direction component, rounded
/// toward zero. A zero direction component leaves its velocity component at
/// zero, a full one gives exactly the impulse, signs follow the direction,
/// and the velocity is parallel to the direction up to that rounding.
pub proof fn lemma_thrust_from_rest(m: Motion, c: Configuration, dt: int, st: Steering)
    requires
        c.well_formed(),
        st.well_formed(),
        0 <= dt,
        0 <= m.throttle,
        m.vx == 0,
        m.vy == 0,
    ensures
        propelled(m, c, dt, st).vx == fmul(impulse(c, m.throttle, dt), st.thrust_x as int),
        propelled(m, c, dt, st).vy == fmul(impulse(c, m.throttle, dt), st.thrust_y as int),
        st.thrust_x == 0 ==> propelled(m, c, dt, st).vx == 0,
        st.thrust_y == 0 ==> propelled(m, c, dt, st).vy == 0,
        st.thrust_x == UNIT ==> propelled(m, c, dt, st).vx == impulse(c, m.throttle, dt),
        st.thrust_x == -UNIT ==> propelled(m, c, dt, st).vx == -impulse(c, m.throttle, dt),
        st.thrust_y == UNIT ==> propelled(m, c, dt, st).vy == impulse(c, m.throttle, dt),
        st.thrust_y == -UNIT ==> propelled(m, c, dt, st).vy == -impulse(c, m.throttle, dt),
        st.thrust_x >= 0 ==> propelled(m, c, dt, st).vx >= 0,
        st.thrust_x <= 0 ==> propelled(m, c, dt, st).vx <= 0,
        st.thrust_y >= 0 ==> propelled(m, c, dt, st).vy >= 0,
        st.thrust_y <= 0 ==> propelled(m, c, dt, st).vy <= 0,
        abs(propelled(m, c, dt, st).vx * st.thrust_y - propelled(m, c, dt, st).vy * st.thrust_x)
            <= abs(st.thrust_x as int) + abs(st.thrust_y as int),
{
    let b = impulse(c, m.throttle, dt);
    let tx = st.thrust_x as int;
    let ty = st.thrust_y as int;
    let u = UNIT as int;
    lemma_impulse_nonneg(c, m.throttle, dt);
    lemma_fmul_zero(b);
    lemma_fmul_unit(b);
    lemma_fmul_sign(b, tx);
    lemma_fmul_sign(b, ty);
    assert(tx >= 0 ==> b * tx >= 0) by (nonlinear_arith)
        requires
            b >= 0,
    ;
    assert(tx <= 0 ==> b * tx <= 0) by (nonlinear_arith)
        requires
            b >= 0,
    ;
    assert(ty >= 0 ==> b * ty >= 0) by (nonlinear_arith)
        requires
            b >= 0,
    ;
    assert(ty <= 0 ==> b * ty <= 0) by (nonlinear_arith)
        requires
            b >= 0,
    ;
    let x = fmul(b, tx);
    let y = fmul(b, ty);
    lemma_fmul_residue(b, tx);
    lemma_fmul_residue(b, ty);
    let ex = b * tx - u * x;
    let ey = b * ty - u * y;
    assert(u * (x * ty - y * tx) == ey * tx - ex * ty) by (nonlinear_arith)
        requires
            ex == b * tx - u * x,
            ey == b * ty - u * y,
    ;
    assert(abs(ey * tx - ex * ty) <= abs(ey) * abs(tx) + abs(ex) * abs(ty)) by (nonlinear_arith);
    assert(abs(ey) * abs(tx) + abs(ex) * abs(ty) <= u * (abs(tx) + abs(ty))) by (nonlinear_arith)
        requires
            abs(ex) < u,
            abs(ey) < u,
            0 <= abs(tx),
            0 <= abs(ty),
    ;
    assert(abs(x * ty - y * tx) <= abs(tx) + abs(ty)) by (nonlinear_arith)
        requires
            u * (x * ty - y * tx) == ey * tx - ex * ty,
            abs(ey * tx - ex * ty) <= u * (abs(tx) + abs(ty)),
            u == 1_000_000,
    ;
}

/// A rudder at straight ahead (zero lever) applies no torque.
pub proof fn lemma_straight_rudder_keeps_spin(m: Motion, c: Configuration, dt: int, st: Steering)
    requires
        st.lever == 0,
    ensures
        propelled(m, c, dt, st).omega == m.omega,
{
    lemma_fmul_zero(fmul(impulse(c, m.throttle, dt), c.boat_half_length as int));
}

/// The torque's sign is opposite to the deflection's: a positive lever never
/// raises the angular velocity and a negative one never lowers it. The change
/// is non-zero exactly when the rounded turning impulse reaches one unit.
pub proof fn lemma_turn_direction(m: Motion, c: Configuration, dt: int, st: Steering)
    requires
        c.well_formed(),
        0 <= dt,
        0 <= m.throttle,
    ensures
        st.lever > 0 ==> propelled(m, c, dt, st).omega <= m.omega,
        st.lever < 0 ==> propelled(m, c, dt, st).omega >= m.omega,
        propelled(m, c, dt, st).omega != m.omega <==> abs(
            fmul(impulse(c, m.throttle, dt), c.boat_half_length as int) * st.lever,
        ) >= UNIT,
{
    let arm = fmul(impulse(c, m.throttle, dt), c.boat_half_length as int);
    lemma_impulse_nonneg(c, m.throttle, dt);
    lemma_fmul_nonneg(impulse(c, m.throttle, dt), c.boat_half_length as int);
    lemma_fmul_sign(arm, st.lever as int);
    assert(st.lever > 0 ==> arm * st.lever >= 0) by (nonlinear_arith)
        requires
            arm >= 0,
    ;
    assert(st.lever < 0 ==> arm * st.lever <= 0) by (nonlinear_arith)
        requires
            arm >= 0,
    ;
}

/// With throttle idle, propulsion changes neither velocity nor spin.
pub proof fn lemma_idle_throttle_coasts(m: Motion, c: Configuration, dt: int, st: Steering)
    requires
        m.throttle == 0,
    ensures
        propelled(m, c, dt, st) == m,
{
    lemma_fmul_zero(c.base_thrust as int);
    lemma_fmul_zero(dt);
    lemma_fmul_zero(st.thrust_x as int);
    lemma_fmul_zero(st.thrust_y as int);
    lemma_fmul_zero(c.boat_half_length as int);
    lemma_fmul_zero(st.lever as int);
}

/// The drag fraction is never negative and does not grow as the velocity
/// shrinks.
pub proof fn lemma_drag_fraction_monotone(c: Configuration, vx: int, vy: int, wx: int, wy: int, dt: int)
    requires
        c.well_formed(),
        0 <= dt,
        shrinks(vx, wx),
        shrinks(vy, wy),
    ensures
        0 <= drag_fraction(c, wx, wy, dt) <= drag_fraction(c, vx, vy, dt),
{
    let n = vx * vx + vy * vy;
    let k = wx * wx + wy * wy;
    assert(0 <= wx * wx <= vx * vx) by (nonlinear_arith)
        requires
            shrinks(vx, wx),
    ;
    assert(0 <= wy * wy <= vy * vy) by (nonlinear_arith)
        requires
            shrinks(vy, wy),
    ;
    lemma_isqrt_exists(n as nat);
    lemma_isqrt_exists(k as nat);
    lemma_isqrt_monotone(k, n);
    let mv = isqrt(n);
    let mw = isqrt(k);
    let lin = c.friction_linear_term as int;
    let sq = c.friction_square_term as int;
    lemma_fmul_monotone(lin, mw, lin, mv);
    lemma_fmul_monotone(sq, mw, sq, mv);
    lemma_fmul_monotone(fmul(sq, mw), mw, fmul(sq, mv), mv);
    lemma_fmul_monotone(
        fmul(lin, mw) + fmul(fmul(sq, mw), mw),
        dt,
        fmul(lin, mv) + fmul(fmul(sq, mv), mv),
        dt,
    );
}

/// One drag step within the gentle range neither reverses nor grows any
/// velocity component or the spin, and touches nothing else.
pub proof fn lemma_drag_shrinks(m: Motion, c: Configuration, dt: int)
    requires
        c.well_formed(),
        0 <= dt,
        drag_gentle(m, c, dt),
    ensures
        shrinks(m.vx, damped(m, c, dt).vx),
        shrinks(m.vy, damped(m, c, dt).vy),
        shrinks(m.omega, damped(m, c, dt).omega),
        damped(m, c, dt).throttle == m.throttle,
        damped(m, c, dt).rotation == m.rotation,
        damped(m, c, dt).px == m.px,
        damped(m, c, dt).py == m.py,
{
    lemma_drag_fraction_monotone(c, m.vx, m.vy, m.vx, m.vy, dt);
    lemma_fmul_nonneg(c.rotational_friction as int, dt);
    let k = drag_fraction(c, m.vx, m.vy, dt);
    lemma_fmul_fraction(m.vx, k);
    lemma_fmul_fraction(m.vy, k);
    lemma_fmul_fraction(m.omega, spin_fraction(c, dt));
}

/// Repeated drag with no propulsion decays monotonically: from a state where
/// one step is gentle, every later step again neither reverses nor grows
/// any velocity component or the spin.
pub proof fn lemma_drag_decays(m: Motion, c: Configuration, dt: int, n: nat)
    requires
        c.well_formed(),
        0 <= dt,
        drag_gentle(m, c, dt),
    ensures
        drag_gentle(dragged(m, c, dt, n), c, dt),
        shrinks(dragged(m, c, dt, n).vx, dragged(m, c, dt, n + 1).vx),
        shrinks(dragged(m, c, dt, n).vy, dragged(m, c, dt, n + 1).vy),
        shrinks(dragged(m, c, dt, n).omega, dragged(m, c, dt, n + 1).omega),
    decreases n,
{
    if n > 0 {
        lemma_drag_decays(m, c, dt, (n - 1) as nat);
        let prev = dragged(m, c, dt, (n - 1) as nat);
        let cur = dragged(m, c, dt, n);
        lemma_drag_fraction_monotone(c, prev.vx, prev.vy, cur.vx, cur.vy, dt);
    }
    let cur = dragged(m, c, dt, n);
    lemma_drag_shrinks(cur, c, dt);
    assert(dragged(m, c, dt, n + 1) == damped(cur, c, dt));
}

} // verus!
