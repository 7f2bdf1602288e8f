//! Motor mixer for a quadrotor in X configuration.
//!
//! Rotor layout, seen from above, nose up the page:
//!
//! ```text
//!   m1 (front left, CW)    m2 (front right, CCW)
//!   m3 (rear left, CCW)    m4 (rear right, CW)
//! ```
//!
//! Sign of each axis for each rotor (positive roll lowers the right side,
//! positive pitch raises the nose, positive yaw turns the nose right):
//!
//! ```text
//!        roll  pitch  yaw
//!   m1    +1    +1    -1
//!   m2    -1    +1    +1
//!   m3    +1    -1    +1
//!   m4    -1    -1    -1
//! ```
//!
//! Each command is clamped to `[0, 1]` on its own: saturating one rotor does
//! not scale the others down, so a saturated rotor never silently takes
//! authority away from the rest.

use vstd::prelude::*;

use crate::fixed::{clamp, clamp_i64, SCALE};
use crate::records::{Demands, Motors};

verus! {

/// One rotor's command: throttle plus the signed axis demands, clamped to `[0, 1]`.
pub open spec fn rotor(d: Demands, roll_sign: int, pitch_sign: int, yaw_sign: int) -> int {
    clamp(
        d.throttle + roll_sign * d.roll + pitch_sign * d.pitch + yaw_sign * d.yaw,
        0,
        SCALE as int,
    )
}

/// The four rotor commands for some demands, by the sign table above.
pub open spec fn mix_spec(d: Demands) -> Motors {
    Motors {
        m1: rotor(d, 1, 1, -1) as i32,
        m2: rotor(d, -1, 1, 1) as i32,
        m3: rotor(d, 1, -1, 1) as i32,
        m4: rotor(d, -1, -1, -1) as i32,
    }
}

/// Whether every rotor command lies in `[0, 1]`.
pub open spec fn motors_in_range(m: Motors) -> bool {
    &&& 0 <= m.m1 <= SCALE
    &&& 0 <= m.m2 <= SCALE
    &&& 0 <= m.m3 <= SCALE
    &&& 0 <= m.m4 <= SCALE
}

/// Maps demands to the four rotor commands. It keeps no state.
pub fn mix(demands: &Demands) -> (r: Motors)
    ensures
        r == mix_spec(*demands),
        motors_in_range(r),
{
    let t: i64 = demands.throttle as i64;
    let roll: i64 = demands.roll as i64;
    let pitch: i64 = demands.pitch as i64;
    let yaw: i64 = demands.yaw as i64;
    let s: i64 = SCALE as i64;
    Motors {
        m1: clamp_i64(t + roll + pitch - yaw, 0, s) as i32,
        m2: clamp_i64(t - roll + pitch + yaw, 0, s) as i32,
        m3: clamp_i64(t + roll - pitch + yaw, 0, s) as i32,
        m4: clamp_i64(t - roll - pitch - yaw, 0, s) as i32,
    }
}

/// The mixer is a function of the demands alone: equal demands give equal
/// motor commands.
pub proof fn lemma_mix_deterministic(a: Demands, b: Demands)
    requires
        a == b,
    ensures
        mix_spec(a) == mix_spec(b),
{
}

/// Every rotor command lies in `[0, 1]`, whatever the demands, extreme ones
/// included.
pub proof fn lemma_mix_in_range(d: Demands)
    ensures
        motors_in_range(mix_spec(d)),
{
}

} // verus!
