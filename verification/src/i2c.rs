//! I2C service: the backend contract, a mock backend and the dispatcher.

pub mod backend;
pub mod mock;
pub mod server;


