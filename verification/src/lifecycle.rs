//! Platform lifecycle: the state graph, its wire protocol, the event-driven
//! machine, its event queue and the service on top.

pub mod api;
pub mod ipc;
pub mod server;
pub mod sm;
pub mod wire;
