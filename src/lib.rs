//! Weight-and-balance checks for light aircraft.
//!
//! Loaded items (base weight, fuel, occupants, baggage) are paired with the
//! lever arms of an aircraft profile, summed into a single centre of gravity
//! and checked against the profile's scalar limits and its six-sided
//! envelope in the lever/weight plane.
//!
//! Weights and levers are fixed-point integers in hundredths (of a kilogram,
//! and of the lever unit), so every sum and every envelope test is exact.
//! The centre of gravity is kept as a total weight and a total torque; its
//! lever is their quotient.

pub mod aggregate;
pub mod envelope;
pub mod four_seater;
pub mod fail_reason;
pub mod ken;
pub mod kinds;
pub mod moa;
pub mod planes;
pub mod two_seater;

pub use aggregate::{CgPoint, WeightLever};
pub use envelope::is_inside_polygon;
pub use fail_reason::FailReason;
pub use kinds::{iterate_maps, Kind, KindMap};
