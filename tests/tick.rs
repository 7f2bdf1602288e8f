use hackflight::alt_hold::HOVER_BIAS;
use hackflight::fixed::NOT_FINITE;
use hackflight::{
    get_motors, rust_run_hackflight, AltHoldPidState, Demands, Hackflight, Motors, TickStatus,
    VehicleState,
};

fn at_z(z: i32) -> VehicleState {
    VehicleState {
        x: 0,
        dx: 0,
        y: 0,
        dy: 0,
        z,
        dz: 0,
        phi: 0,
        dphi: 0,
        theta: 0,
        dtheta: 0,
        psi: 0,
        dpsi: 0,
    }
}

fn bundle(demands: Demands, vehicle_state: VehicleState, pid: AltHoldPidState, dt: i32) -> Hackflight {
    Hackflight {
        demands,
        vehicle_state,
        alt_hold_pid: pid,
        motors: Motors { m1: 0, m2: 0, m3: 0, m4: 0 },
        dt,
        status: TickStatus::Nominal,
    }
}

#[test]
fn zero_demands_above_ceiling_give_zero_motors() {
    let m = get_motors(&Demands { throttle: 0, roll: 0, pitch: 0, yaw: 0 }, &at_z(-2_000_000));
    assert_eq!(m, Motors { m1: 0, m2: 0, m3: 0, m4: 0 });
}

#[test]
fn above_ceiling_mixes_raw_throttle_uniformly() {
    let m = get_motors(&Demands { throttle: 500_000, roll: 0, pitch: 0, yaw: 0 }, &at_z(-2_000_000));
    assert_eq!(m, Motors { m1: 500_000, m2: 500_000, m3: 500_000, m4: 500_000 });
}

#[test]
fn below_ceiling_holds_with_hover_bias() {
    let m = get_motors(&Demands { throttle: 500_000, roll: 0, pitch: 0, yaw: 0 }, &at_z(-500_000));
    assert_eq!(m, Motors { m1: HOVER_BIAS, m2: HOVER_BIAS, m3: HOVER_BIAS, m4: HOVER_BIAS });
}

#[test]
fn stateless_tick_with_non_finite_state_passes_through() {
    let mut s = at_z(-500_000);
    s.x = NOT_FINITE;
    let m = get_motors(&Demands { throttle: 500_000, roll: 0, pitch: 0, yaw: 0 }, &s);
    assert_eq!(m, Motors { m1: 500_000, m2: 500_000, m3: 500_000, m4: 500_000 });
}

#[test]
fn stateful_tick_engages_and_latches() {
    let d = Demands { throttle: 500_000, roll: 0, pitch: 0, yaw: 0 };
    let h = rust_run_hackflight(&bundle(d, at_z(-500_000), AltHoldPidState::new(), 10_000));
    assert!(h.alt_hold_pid.in_band);
    assert_eq!(h.alt_hold_pid.target, 500_000);
    assert_eq!(h.demands.throttle, HOVER_BIAS);
    assert_eq!(h.motors, Motors { m1: HOVER_BIAS, m2: HOVER_BIAS, m3: HOVER_BIAS, m4: HOVER_BIAS });
    assert_eq!(h.status, TickStatus::Nominal);
    assert_eq!(h.dt, 10_000);
    assert_eq!(h.vehicle_state, at_z(-500_000));
}

#[test]
fn stateful_tick_zero_period_while_engaged() {
    let d = Demands { throttle: 500_000, roll: 0, pitch: 0, yaw: 0 };
    let h1 = rust_run_hackflight(&bundle(d, at_z(-500_000), AltHoldPidState::new(), 10_000));
    let h2 = rust_run_hackflight(&bundle(d, at_z(-400_000), h1.alt_hold_pid, 10_000));
    assert_eq!(h2.alt_hold_pid.error_integral, 1_000);
    let h3 = rust_run_hackflight(&bundle(d, at_z(-400_000), h2.alt_hold_pid, 0));
    assert_eq!(h3.status, TickStatus::InvalidPeriod);
    assert_eq!(h3.alt_hold_pid.error_integral, 1_000);
    assert_eq!(h3.demands.throttle, 675_150);
}

#[test]
fn stateful_tick_mixes_attitude_demands() {
    let d = Demands { throttle: 500_000, roll: 100_000, pitch: 0, yaw: 0 };
    let h = rust_run_hackflight(&bundle(d, at_z(-3_000_000), AltHoldPidState::new(), 10_000));
    assert!(!h.alt_hold_pid.in_band);
    assert_eq!(h.motors, Motors { m1: 600_000, m2: 400_000, m3: 600_000, m4: 400_000 });
}

#[test]
fn stateful_tick_zero_period_while_disengaged_passes_through() {
    let d = Demands { throttle: 500_000, roll: 0, pitch: 0, yaw: 0 };
    let h = rust_run_hackflight(&bundle(d, at_z(-500_000), AltHoldPidState::new(), 0));
    assert_eq!(h.status, TickStatus::InvalidPeriod);
    assert!(!h.alt_hold_pid.in_band);
    assert_eq!(h.demands, d);
    assert_eq!(h.motors, Motors { m1: 500_000, m2: 500_000, m3: 500_000, m4: 500_000 });
}

#[test]
fn stateful_tick_flags_poisoned_memory() {
    let d = Demands { throttle: 500_000, roll: 0, pitch: 0, yaw: 0 };
    let poisoned = AltHoldPidState { error_integral: 0, in_band: true, target: NOT_FINITE };
    let h = rust_run_hackflight(&bundle(d, at_z(-500_000), poisoned, 10_000));
    assert_eq!(h.status, TickStatus::InvalidMemory);
    assert_eq!(h.alt_hold_pid, AltHoldPidState::new());
    assert_eq!(h.motors, Motors { m1: 500_000, m2: 500_000, m3: 500_000, m4: 500_000 });
}
