//! The machine itself: its hardware enumerations and a simulated device.

pub mod ecam_simulate;
pub mod hardware_enums;
