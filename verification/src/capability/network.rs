//! Network devices that hand out a typed error and join networks by credentials.

use vstd::prelude::*;

verus! {

/// A network interface with its own error type.
pub trait NetworkDevice {
    type Error;
}

/// The name and passphrase of a Wi-Fi network.
pub struct WifiCredentials<'a> {
    pub ssid: &'a str,
    pub password: &'a str,
}

} // verus!
