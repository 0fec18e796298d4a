//! Whether the board's Bluetooth radio is enabled.

use vstd::prelude::*;

use crate::capability::network_device::BluetoothError;

verus! {

/// The enable flag of a Bluetooth radio.  Enabling an enabled radio is
/// accepted without touching the radio; disabling needs an enabled radio.
pub struct BluetoothState {
    enabled: bool,
}

impl BluetoothState {
    pub closed spec fn enabled(&self) -> bool {
        self.enabled
    }

    /// A radio that starts disabled.
    pub fn new() -> (s: Self)
        ensures
            !s.enabled(),
    {
        BluetoothState { enabled: false }
    }

    pub fn is_enabled(&self) -> (r: bool)
        ensures
            r == self.enabled(),
    {
        self.enabled
    }

    /// Whether an `enable` must claim the radio: only when it is disabled.
    pub fn enable_needs_radio(&self) -> (r: bool)
        ensures
            r == !self.enabled(),
    {
        !self.enabled
    }

    /// Records that the radio is enabled; always succeeds.
    pub fn enable(&mut self) -> (r: Result<(), BluetoothError>)
        ensures
            r is Ok,
            final(self).enabled(),
    {
        self.enabled = true;
        Ok(())
    }

    /// Whether a `disable` may go ahead: only an enabled radio can be disabled.
    pub fn check_disable(&self) -> (r: Result<(), BluetoothError>)
        ensures
            r is Ok <==> self.enabled(),
            r is Err ==> r == Err::<(), BluetoothError>(BluetoothError::NotEnabled),
    {
        if !self.enabled {
            Err(BluetoothError::NotEnabled)
        } else {
            Ok(())
        }
    }

    /// Disables the radio: refused with `NotEnabled` when it is not enabled.
    pub fn disable(&mut self) -> (r: Result<(), BluetoothError>)
        ensures
            old(self).enabled() ==> r is Ok && !final(self).enabled(),
            !old(self).enabled() ==> r == Err::<(), BluetoothError>(BluetoothError::NotEnabled)
                && !final(self).enabled(),
    {
        self.check_disable()?;
        self.enabled = false;
        Ok(())
    }
}

} // verus!
