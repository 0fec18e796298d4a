//! Verified logic of a small IoT firmware: digital drivers, an HTTP range
//! client's decisions, and an over-the-air update procedure.

pub mod capability;
pub mod driver;
pub mod device;
pub mod hal_traits;
pub mod text;
pub mod http;
pub mod ota;
pub mod net;
pub mod bluetooth;
pub mod ota_old;
pub mod board;
