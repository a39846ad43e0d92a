//! PLDM firmware device: the terminus loop and its notification channel.

pub mod firmware_device;
pub mod notify_channel;
pub mod notify_transport;
