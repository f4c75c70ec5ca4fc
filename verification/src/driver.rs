//! The state of the driver between its loading and its unloading.

use vstd::prelude::*;

verus! {

/// The status that reports success to the host.
pub const STATUS_SUCCESS: i32 = 0;

/// The state of the driver.  The host makes one, owns it, and lends it
/// to the entry points.
pub struct DriverContext {
    /// The handle under which the host knows the filter; zero where
    /// there is none.
    pub filter_handle: usize,
    /// Whether the filter is at work.
    pub is_running: bool,
}

impl DriverContext {
    /// The state of a driver that has not been started: no handle, not running.
    pub fn new() -> (context: Self)
        ensures
            context.filter_handle == 0,
            !context.is_running,
    {
        DriverContext { filter_handle: 0, is_running: false }
    }

    /// Starts the driver and reports success.
    pub fn initialize(&mut self) -> (status: i32)
        ensures
            status == STATUS_SUCCESS,
            final(self).is_running,
            final(self).filter_handle == old(self).filter_handle,
    {
        self.is_running = true;
        STATUS_SUCCESS
    }

    /// Stops the driver.
    pub fn cleanup(&mut self)
        ensures
            !final(self).is_running,
            final(self).filter_handle == old(self).filter_handle,
    {
        self.is_running = false;
    }
}

} // verus!
