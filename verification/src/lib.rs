//! Marshalling boundary for a wallet client: converts domain values
//! (descriptor kinds, invoice kinds, prepared transfers, validation
//! reports) into fixed-shape structures safe to hand to a non-owning
//! caller, and reclaims what was handed out.

pub mod client;
pub mod config;
pub mod kinds;
pub mod strings;
pub mod transfer;
pub mod validation;
