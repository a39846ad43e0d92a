//! Cryptographic services: wire protocol, capability traits, the request
//! server, the in-process software provider and the remote client.


pub mod backend;
pub mod client;
pub mod protocol;
pub mod server;
pub mod soft;
pub mod stack;
pub mod traits;
