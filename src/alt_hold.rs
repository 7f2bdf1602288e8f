//! Altitude-hold controller: a PID regulator on climb-positive altitude with
//! a two-state engage/disengage policy and a persistent, bounded integral.

use vstd::prelude::*;

use crate::fixed::{clamp, clamp_i64, rescale, rescale_i128, SCALE};
use crate::records::{AltHoldPidState, Demands, TickStatus, VehicleState};

verus! {

/// The controller engages only below this altitude (1.0).
pub const CEILING: i32 = 1_000_000;

/// Centre of the pilot throttle deadband, the hover stick position (0.5).
pub const HOVER_THROTTLE: i32 = 500_000;

/// Half-width of the throttle deadband (0.1).
pub const DEADBAND: i32 = 100_000;

/// Proportional gain (0.75).
pub const KP: i32 = 750_000;

/// Integral gain (0.15).
pub const KI: i32 = 150_000;

/// Throttle that holds the vehicle in hover, added to the PID terms (0.6).
pub const HOVER_BIAS: i32 = 600_000;

/// Bound of the anti-windup range of the altitude error integral (2.0).
pub const INTEGRAL_LIMIT: i32 = 2_000_000;

/// Result of one controller tick.
#[derive(Clone, Copy, Debug, PartialEq, Eq, Structural)]
pub struct AltHoldOutput {
    /// The demands to mix: the input ones, with throttle replaced when engaged.
    pub demands: Demands,
    /// The controller memory for the next tick.
    pub pid: AltHoldPidState,
    pub status: TickStatus,
}

/// Whether a pilot throttle lies in the neutral band around hover.
pub open spec fn in_deadband(throttle: int) -> bool {
    HOVER_THROTTLE - DEADBAND <= throttle <= HOVER_THROTTLE + DEADBAND
}

/// Whether the controller regulates on a tick with finite inputs: the pilot
/// leaves the throttle in the deadband, and the controller was engaged
/// already or the vehicle is below the ceiling.
pub open spec fn regulates(d: Demands, s: VehicleState, pid: AltHoldPidState) -> bool {
    &&& in_deadband(d.throttle as int)
    &&& (pid.in_band || s.altitude() < CEILING)
}

/// The integral after one tick: the error times the period is added and the
/// sum held within the anti-windup range; a period that is not positive
/// leaves it as it was.
pub open spec fn next_integral(integral: int, error: int, dt: int) -> int {
    if dt <= 0 {
        integral
    } else {
        clamp(integral + rescale(error * dt), -INTEGRAL_LIMIT, INTEGRAL_LIMIT as int)
    }
}

/// The regulated throttle: `Kp * error + Ki * integral + hover bias`, in `[0, 1]`.
pub open spec fn hold_throttle(error: int, integral: int) -> int {
    clamp(rescale(KP * error) + rescale(KI * integral) + HOVER_BIAS, 0, SCALE as int)
}

pub open spec fn period_status(dt: int) -> TickStatus {
    if dt <= 0 {
        TickStatus::InvalidPeriod
    } else {
        TickStatus::Nominal
    }
}

/// One tick of the controller. Inputs that are not finite, or a memory that
/// breaks its invariant, give pass-through; so does a period that is not
/// positive while disengaged. A period that is not positive while engaged
/// keeps the integral and regulates on it.
pub open spec fn alt_hold_step(
    d: Demands,
    s: VehicleState,
    pid: AltHoldPidState,
    dt: i32,
) -> AltHoldOutput {
    if !(d.all_finite() && s.all_finite()) {
        AltHoldOutput { demands: d, pid: AltHoldPidState::idle(), status: TickStatus::NonFinite }
    } else if !pid.wf() {
        AltHoldOutput { demands: d, pid: AltHoldPidState::idle(), status: TickStatus::InvalidMemory }
    } else if !regulates(d, s, pid) || (dt <= 0 && !pid.in_band) {
        AltHoldOutput { demands: d, pid: AltHoldPidState::idle(), status: period_status(dt as int) }
    } else {
        let target = if pid.in_band {
            pid.target as int
        } else {
            s.altitude()
        };
        let integral = if pid.in_band {
            pid.error_integral as int
        } else {
            0
        };
        let error = target - s.altitude();
        let next = next_integral(integral, error, dt as int);
        AltHoldOutput {
            demands: Demands { throttle: hold_throttle(error, next) as i32, ..d },
            pid: AltHoldPidState { error_integral: next as i32, in_band: true, target: target as i32 },
            status: period_status(dt as int),
        }
    }
}

fn in_deadband_exec(throttle: i32) -> (r: bool)
    ensures
        r == in_deadband(throttle as int),
{
    HOVER_THROTTLE - DEADBAND <= throttle && throttle <= HOVER_THROTTLE + DEADBAND
}

fn status_of_period(dt: i32) -> (r: TickStatus)
    ensures
        r == period_status(dt as int),
{
    if dt <= 0 {
        TickStatus::InvalidPeriod
    } else {
        TickStatus::Nominal
    }
}

/// Runs the controller for one tick: decides whether it regulates, updates
/// its memory and, while engaged, replaces the pilot throttle.
pub fn alt_hold(
    demands: &Demands,
    vehicle_state: &VehicleState,
    pid: &AltHoldPidState,
    dt: i32,
) -> (r: AltHoldOutput)
    ensures
        r == alt_hold_step(*demands, *vehicle_state, *pid, dt),
        r.pid.wf(),
{
    let d = *demands;
    let s = *vehicle_state;
    let p = *pid;
    if !(d.is_all_finite() && s.is_all_finite()) {
        return AltHoldOutput { demands: d, pid: AltHoldPidState::new(), status: TickStatus::NonFinite };
    }
    if !p.is_valid() {
        return AltHoldOutput { demands: d, pid: AltHoldPidState::new(), status: TickStatus::InvalidMemory };
    }
    let altitude: i64 = -(s.z as i64);
    if !(in_deadband_exec(d.throttle) && (p.in_band || altitude < CEILING as i64)) || (dt <= 0
        && !p.in_band) {
        return AltHoldOutput { demands: d, pid: AltHoldPidState::new(), status: status_of_period(dt) };
    }
    let target: i64 = if p.in_band {
        p.target as i64
    } else {
        altitude
    };
    let integral: i64 = if p.in_band {
        p.error_integral as i64
    } else {
        0
    };
    let error: i64 = target - altitude;
    let next: i64 = if dt <= 0 {
        integral
    } else {
        let e: i128 = error as i128;
        let t: i128 = dt as i128;
        assert(-0x1_0000_0000_0000_0000 < e * t < 0x1_0000_0000_0000_0000) by (nonlinear_arith)
            requires
                -0x2_0000_0000 < e < 0x2_0000_0000,
                0 < t < 0x8000_0000,
        ;
        let step: i128 = rescale_i128(e * t);
        assert(-0x1_0000_0000_0000 < step < 0x1_0000_0000_0000);
        clamp_i64(integral + step as i64, -(INTEGRAL_LIMIT as i64), INTEGRAL_LIMIT as i64)
    };
    let p_term: i128 = rescale_i128((KP as i128) * (error as i128));
    let i_term: i128 = rescale_i128((KI as i128) * (next as i128));
    let throttle: i64 = clamp_i64(
        p_term as i64 + i_term as i64 + HOVER_BIAS as i64,
        0,
        SCALE as i64,
    );
    AltHoldOutput {
        demands: Demands { throttle: throttle as i32, ..d },
        pid: AltHoldPidState { error_integral: next as i32, in_band: true, target: target as i32 },
        status: status_of_period(dt),
    }
}

/// The controller memory after a run of ticks, each given as demands,
/// vehicle state and period.
pub open spec fn run_ticks(
    pid: AltHoldPidState,
    ticks: Seq<(Demands, VehicleState, i32)>,
) -> AltHoldPidState
    decreases ticks.len(),
{
    if ticks.len() == 0 {
        pid
    } else {
        run_ticks(alt_hold_step(ticks[0].0, ticks[0].1, pid, ticks[0].2).pid, ticks.drop_first())
    }
}

/// One tick keeps the controller memory within its invariant.
pub proof fn lemma_step_wf(d: Demands, s: VehicleState, pid: AltHoldPidState, dt: i32)
    requires
        pid.wf(),
    ensures
        alt_hold_step(d, s, pid, dt).pid.wf(),
{
}

/// However long the error stays large, and whatever the inputs of each tick,
/// the integral stays within the anti-windup range.
pub proof fn lemma_integral_bounded(pid: AltHoldPidState, ticks: Seq<(Demands, VehicleState, i32)>)
    requires
        pid.wf(),
    ensures
        run_ticks(pid, ticks).wf(),
        -INTEGRAL_LIMIT <= run_ticks(pid, ticks).error_integral <= INTEGRAL_LIMIT,
    decreases ticks.len(),
{
    if ticks.len() > 0 {
        lemma_step_wf(ticks[0].0, ticks[0].1, pid, ticks[0].2);
        lemma_integral_bounded(
            alt_hold_step(ticks[0].0, ticks[0].1, pid, ticks[0].2).pid,
            ticks.drop_first(),
        );
    }
}

/// A disengaged controller does not engage at or above the ceiling, and the
/// pilot throttle then passes through unchanged.
pub proof fn lemma_no_engage_at_or_above_ceiling(
    d: Demands,
    s: VehicleState,
    pid: AltHoldPidState,
    dt: i32,
)
    requires
        pid.wf(),
        !pid.in_band,
        s.altitude() >= CEILING,
    ensures
        !alt_hold_step(d, s, pid, dt).pid.in_band,
        alt_hold_step(d, s, pid, dt).demands.throttle == d.throttle,
{
}

/// Pushing the throttle out of the deadband disengages the controller;
/// engaging it again, on a tick with a positive period, latches the altitude
/// of that tick as the target and starts the integral from zero, whatever
/// the memory held before.
pub proof fn lemma_reengage_relatches(
    pid: AltHoldPidState,
    d_off: Demands,
    s_off: VehicleState,
    dt_off: i32,
    d_on: Demands,
    s_on: VehicleState,
    dt_on: i32,
)
    requires
        pid.wf(),
        !in_deadband(d_off.throttle as int),
        d_on.all_finite(),
        s_on.all_finite(),
        in_deadband(d_on.throttle as int),
        s_on.altitude() < CEILING,
        dt_on > 0,
    ensures
        !alt_hold_step(d_off, s_off, pid, dt_off).pid.in_band,
        ({
            let p = alt_hold_step(d_on, s_on, alt_hold_step(d_off, s_off, pid, dt_off).pid, dt_on).pid;
            &&& p.in_band
            &&& p.error_integral == 0
            &&& p.target == s_on.altitude()
        }),
{
    assert(next_integral(0, 0, dt_on as int) == 0);
}

} // verus!
