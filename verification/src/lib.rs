//! Protocol engine for the ECAM appliance control bus: packet framing,
//! request encoding, response decoding and recipe harvesting.

pub mod ecam;
pub mod operations;
pub mod protocol;
