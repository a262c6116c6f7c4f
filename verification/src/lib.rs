//! Remote file service: wire format, byte packing, protocol state machines
//! and client-side editing logic.

pub mod ser_de;
pub mod fsm;
pub mod middleware;
pub mod remote;
pub mod text;
pub mod fs;
pub mod interfaces;
pub mod server;
pub mod client;
