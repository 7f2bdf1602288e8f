//! The operations the host calls once per tick. Each copies the records it
//! is handed, runs the altitude-hold controller and then the mixer, and
//! returns fresh values; nothing is kept between calls.

use vstd::prelude::*;

use crate::alt_hold::{alt_hold, alt_hold_step, hold_throttle, in_deadband, CEILING};
use crate::mixer::{mix, mix_spec};
use crate::records::{AltHoldPidState, Demands, Hackflight, Motors, VehicleState};

verus! {

/// The demands a memoryless tick mixes: every tick starts disengaged, so the
/// controller engages exactly when the inputs are finite, the throttle is in
/// the deadband and the vehicle is below the ceiling. The tick that engages
/// has zero error and zero integral, so its throttle is the hover bias.
pub open spec fn memoryless_demands(d: Demands, s: VehicleState) -> Demands {
    if d.all_finite() && s.all_finite() && in_deadband(d.throttle as int) && s.altitude() < CEILING {
        Demands { throttle: hold_throttle(0, 0) as i32, ..d }
    } else {
        d
    }
}

/// Stateless tick: motor commands for the demands and vehicle state, with
/// no controller memory carried over.
pub fn get_motors(demands: &Demands, vehicle_state: &VehicleState) -> (r: Motors)
    ensures
        r == mix_spec(memoryless_demands(*demands, *vehicle_state)),
{
    let d = *demands;
    let s = *vehicle_state;
    // A fresh controller: the throttle of the tick that engages does not
    // depend on the period, so the smallest positive one is passed.
    let out = alt_hold(&d, &s, &AltHoldPidState::new(), 1);
    mix(&out.demands)
}

/// Stateful tick: reads demands, vehicle state, controller memory and
/// period from the bundle, and returns a new bundle with the corrected
/// demands, the updated memory, the motor commands and the tick's status.
pub fn rust_run_hackflight(hackflight: &Hackflight) -> (r: Hackflight)
    ensures
        ({
            let out = alt_hold_step(
                hackflight.demands,
                hackflight.vehicle_state,
                hackflight.alt_hold_pid,
                hackflight.dt,
            );
            r == Hackflight {
                demands: out.demands,
                vehicle_state: hackflight.vehicle_state,
                alt_hold_pid: out.pid,
                motors: mix_spec(out.demands),
                dt: hackflight.dt,
                status: out.status,
            }
        }),
        r.alt_hold_pid.wf(),
{
    let demands = hackflight.demands;
    let vehicle_state = hackflight.vehicle_state;
    let alt_hold_pid = hackflight.alt_hold_pid;
    let dt = hackflight.dt;
    let out = alt_hold(&demands, &vehicle_state, &alt_hold_pid, dt);
    let motors = mix(&out.demands);
    Hackflight {
        demands: out.demands,
        vehicle_state,
        alt_hold_pid: out.pid,
        motors,
        dt,
        status: out.status,
    }
}

} // verus!
