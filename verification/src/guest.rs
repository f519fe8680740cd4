use vstd::prelude::*;
use crate::gpio::{GpioInitArgs, Mode};

verus! {

/// The guest component: it asks the host for pin 17 of port 0 as an output,
/// reports how long that took, holds the pin for ten seconds, and succeeds.
pub struct GuestComponent;

impl GuestComponent {
    /// The `gpio-init` call the guest makes when started.
    pub fn start_request() -> (args: GpioInitArgs)
        ensures
            args == (GpioInitArgs { port: 0, pin: 17, mode: Mode::Output }),
    {
        GpioInitArgs { port: 0, pin: 17, mode: Mode::Output }
    }

    /// How long, in seconds, the guest keeps running after its call.
    pub fn hold_secs() -> (secs: u64)
        ensures
            secs == 10,
    {
        10
    }

    /// The guest's result of `start` once its `gpio-init` call succeeded; a
    /// failed call aborts the guest instead.
    pub fn start_result(init: Result<u32, u32>) -> (result: Result<(), ()>)
        requires
            init is Ok,
        ensures
            result == Ok::<(), ()>(()),
    {
        Ok(())
    }

    /// The guest's answer when the host calls into it: success, with nothing done.
    pub fn host_to_guest() -> (result: Result<(), ()>)
        ensures
            result == Ok::<(), ()>(()),
    {
        Ok(())
    }
}

} // verus!
