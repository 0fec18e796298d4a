//! Radio devices of a board: Wi-Fi and Bluetooth.

use vstd::prelude::*;

verus! {

/// A radio interface with its own error type.
pub trait NetworkDevice {
    type Error;
}

/// Why a Bluetooth request was refused.
#[derive(Debug, PartialEq, Eq, Structural)]
pub enum BluetoothError {
    NotEnabled,
    AlreadyEnabled,
}

/// What a device needs to join a Wi-Fi network under a host name.
pub struct WifiConfig<'a> {
    pub hostname: &'a str,
    pub ssid: &'a str,
    pub password: &'a str,
}

} // verus!
