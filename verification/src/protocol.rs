//! Wire-level protocol: framing, enumeration codec, requests and responses.

pub mod command;
pub mod machine_enum;
pub mod packet;
