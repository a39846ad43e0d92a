//! Root-of-trust driver and service logic.

pub mod bytes;
pub mod crypto;
pub mod flash;
pub mod i2c;
pub mod ipc_event_queue;
pub mod lifecycle;
pub mod orchestrator;
pub mod pldm;
pub mod server_loop;
