//! Flight-control core of a quadrotor autopilot: an altitude-hold controller
//! and an X-configuration motor mixer, run once per control tick.
//!
//! Every quantity of the data contract is a fixed-point number: an `i32`
//! holding millionths of a unit (see [`fixed`]).

pub mod alt_hold;
pub mod fixed;
pub mod mixer;
pub mod records;
pub mod tick;

pub use records::{AltHoldPidState, Demands, Hackflight, Motors, TickStatus, VehicleState};
pub use tick::{get_motors, rust_run_hackflight};
