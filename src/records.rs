//! The records exchanged with the host on every tick. Each is a flat
//! aggregate of fixed-point fields in a fixed order.

use vstd::prelude::*;

use crate::alt_hold::INTEGRAL_LIMIT;
use crate::fixed::finite;

verus! {

/// Estimated vehicle state: position and velocity on each of the six
/// degrees of freedom. `z` grows downward: the climb-positive altitude is `-z`.
#[derive(Clone, Copy, Debug, PartialEq, Eq, Structural)]
pub struct VehicleState {
    pub x: i32,
    pub dx: i32,
    pub y: i32,
    pub dy: i32,
    pub z: i32,
    pub dz: i32,
    pub phi: i32,
    pub dphi: i32,
    pub theta: i32,
    pub dtheta: i32,
    pub psi: i32,
    pub dpsi: i32,
}

/// Pilot or autopilot setpoints.
#[derive(Clone, Copy, Debug, PartialEq, Eq, Structural)]
pub struct Demands {
    pub throttle: i32,
    pub roll: i32,
    pub pitch: i32,
    pub yaw: i32,
}

/// Per-rotor commands, each in `[0, SCALE]`.
#[derive(Clone, Copy, Debug, PartialEq, Eq, Structural)]
pub struct Motors {
    pub m1: i32,
    pub m2: i32,
    pub m3: i32,
    pub m4: i32,
}

/// Memory of the altitude-hold controller, threaded by the host from one
/// tick to the next.
#[derive(Clone, Copy, Debug, PartialEq, Eq, Structural)]
pub struct AltHoldPidState {
    /// Accumulated integral of the altitude error, within
    /// `[-INTEGRAL_LIMIT, INTEGRAL_LIMIT]`.
    pub error_integral: i32,
    /// Whether the controller is engaged and regulating altitude.
    pub in_band: bool,
    /// Altitude latched when the controller engaged.
    pub target: i32,
}

/// What a tick reports to the host besides its results.
#[derive(Clone, Copy, Debug, PartialEq, Eq, Structural)]
pub enum TickStatus {
    /// The tick ran on valid inputs.
    Nominal,
    /// The tick period was not positive: the integral was left as it was,
    /// and a disengaged controller passed the throttle through.
    InvalidPeriod,
    /// An input field was not finite: the controller fell back to pass-through.
    NonFinite,
    /// The controller memory handed in broke its invariant: the controller
    /// fell back to pass-through and started over disengaged.
    InvalidMemory,
}

/// Everything one stateful tick reads and writes.
#[derive(Clone, Copy, Debug, PartialEq, Eq, Structural)]
pub struct Hackflight {
    pub demands: Demands,
    pub vehicle_state: VehicleState,
    pub alt_hold_pid: AltHoldPidState,
    pub motors: Motors,
    /// The tick period, in the same fixed-point scale (seconds).
    pub dt: i32,
    pub status: TickStatus,
}

impl VehicleState {
    pub open spec fn all_finite(self) -> bool {
        &&& finite(self.x)
        &&& finite(self.dx)
        &&& finite(self.y)
        &&& finite(self.dy)
        &&& finite(self.z)
        &&& finite(self.dz)
        &&& finite(self.phi)
        &&& finite(self.dphi)
        &&& finite(self.theta)
        &&& finite(self.dtheta)
        &&& finite(self.psi)
        &&& finite(self.dpsi)
    }

    /// Climb-positive altitude.
    pub open spec fn altitude(self) -> int {
        -(self.z as int)
    }

    pub fn is_all_finite(&self) -> (r: bool)
        ensures
            r == self.all_finite(),
    {
        crate::fixed::is_finite(self.x) && crate::fixed::is_finite(self.dx)
            && crate::fixed::is_finite(self.y) && crate::fixed::is_finite(self.dy)
            && crate::fixed::is_finite(self.z) && crate::fixed::is_finite(self.dz)
            && crate::fixed::is_finite(self.phi) && crate::fixed::is_finite(self.dphi)
            && crate::fixed::is_finite(self.theta) && crate::fixed::is_finite(self.dtheta)
            && crate::fixed::is_finite(self.psi) && crate::fixed::is_finite(self.dpsi)
    }
}

impl Demands {
    pub open spec fn all_finite(self) -> bool {
        &&& finite(self.throttle)
        &&& finite(self.roll)
        &&& finite(self.pitch)
        &&& finite(self.yaw)
    }

    pub fn is_all_finite(&self) -> (r: bool)
        ensures
            r == self.all_finite(),
    {
        crate::fixed::is_finite(self.throttle) && crate::fixed::is_finite(self.roll)
            && crate::fixed::is_finite(self.pitch) && crate::fixed::is_finite(self.yaw)
    }
}

impl AltHoldPidState {
    /// The state's invariant: the integral stays within the anti-windup
    /// range, an engaged controller holds a finite target, and a disengaged
    /// one holds no integral and no target.
    pub open spec fn wf(self) -> bool {
        &&& -INTEGRAL_LIMIT <= self.error_integral <= INTEGRAL_LIMIT
        &&& self.in_band ==> finite(self.target)
        &&& !self.in_band ==> self.error_integral == 0 && self.target == 0
    }

    /// The disengaged state.
    pub open spec fn idle() -> AltHoldPidState {
        AltHoldPidState { error_integral: 0, in_band: false, target: 0 }
    }

    /// A controller that is not engaged, as the host creates it at flight start.
    pub fn new() -> (r: AltHoldPidState)
        ensures
            r == AltHoldPidState::idle(),
            r.wf(),
    {
        AltHoldPidState { error_integral: 0, in_band: false, target: 0 }
    }

    /// Whether a state handed in by the host meets the invariant.
    pub fn is_valid(&self) -> (r: bool)
        ensures
            r == self.wf(),
    {
        -INTEGRAL_LIMIT <= self.error_integral && self.error_integral <= INTEGRAL_LIMIT
            && (!self.in_band || crate::fixed::is_finite(self.target))
            && (self.in_band || (self.error_integral == 0 && self.target == 0))
    }
}

} // verus!
