//! Drivers built only on the digital-output capability.

pub mod mux;
pub mod pump;
pub mod switch;

pub use mux::Mux;
pub use pump::PumpPower;
pub use switch::Switch;
