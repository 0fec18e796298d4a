//! Hardware-independent capabilities that boards provide and drivers use.

pub mod analog;
pub mod digital;
pub mod network;
pub mod network_device;

pub use analog::AnalogChannel;
pub use digital::{DigitalOutput, IntoDigitalOutput};
