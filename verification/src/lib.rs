//! Bootstrap logic for a windowed graphics application: choosing a physical
//! rendering device and deciding how the event loop reacts to window events.
//!
//! The platform calls themselves (driver enumeration, window creation,
//! swapchain construction) live outside this crate; it receives plain values
//! describing the devices and events and returns plain decisions.

pub mod device;
pub mod events;
