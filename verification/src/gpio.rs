use vstd::prelude::*;
use crate::options::HostImpl;

verus! {

/// The direction a guest asks a pin to be set to.
#[derive(Clone, Copy, Debug, PartialEq, Eq, Structural)]
pub enum Mode {
    Input,
    Output,
}

/// The arguments of the guest's `gpio-init` import.
#[derive(Clone, Copy, Debug, PartialEq, Eq, Structural)]
pub struct GpioInitArgs {
    pub port: u32,
    pub pin: u32,
    pub mode: Mode,
}

/// A request for a GPIO line of a character-device chip, configured as an
/// output, followed by one write to it.
pub struct LineRequest {
    /// The chip's device file.
    pub chip_path: String,
    /// The line (pin) of the chip.
    pub line: u32,
    /// The level the line takes when it becomes an output.
    pub initial_value: u8,
    /// The name the line is held under.
    pub consumer: String,
    /// The level written once the line is held.
    pub drive_value: u8,
}

/// How a world serves `gpio-init`: the line to drive, if any (a failure there
/// fails the call), the notice to print once it is driven, and the reply.
pub struct GpioInitPlan {
    pub line_request: Option<LineRequest>,
    pub notice: Option<String>,
    pub reply: Result<u32, u32>,
}

/// How a world serves `gpio-deinit`: a notice to print, then the reply.
pub struct GpioDeinitPlan {
    pub notice: String,
    pub reply: Result<(), u32>,
}

impl LineRequest {
    /// Line `pin` of `/dev/gpiochip0`, made an output at level 0 under the name
    /// `who-is-using-this`, then driven to level 1.
    pub open spec fn drives_high(self, pin: u32) -> bool {
        &&& self.chip_path@ == "/dev/gpiochip0"@
        &&& self.line == pin
        &&& self.initial_value == 0
        &&& self.consumer@ == "who-is-using-this"@
        &&& self.drive_value == 1
    }
}

/// Serves `gpio-init`. The Linux world drives the requested pin of its first
/// chip high and reports the call; the simulated world touches nothing. Both
/// answer device 1; the port and the mode are not used.
pub fn gpio_init_plan(host: HostImpl, args: GpioInitArgs) -> (plan: GpioInitPlan)
    ensures
        plan.reply == Ok::<u32, u32>(1),
        match host {
            HostImpl::Linux => {
                &&& plan.line_request matches Some(r) && r.drives_high(args.pin)
                &&& plan.notice matches Some(n) && n@ == ">>> called gpio_init (linux)"@
            },
            HostImpl::Sim => plan.line_request is None && plan.notice is None,
        },
{
    match host {
        HostImpl::Linux => GpioInitPlan {
            line_request: Some(
                LineRequest {
                    chip_path: "/dev/gpiochip0".to_owned(),
                    line: args.pin,
                    initial_value: 0,
                    consumer: "who-is-using-this".to_owned(),
                    drive_value: 1,
                },
            ),
            notice: Some(">>> called gpio_init (linux)".to_owned()),
            reply: Ok(1),
        },
        HostImpl::Sim => GpioInitPlan { line_request: None, notice: None, reply: Ok(1) },
    }
}

/// Serves `gpio-deinit`: both worlds print which world was called and succeed.
pub fn gpio_deinit_plan(host: HostImpl, device: u32) -> (plan: GpioDeinitPlan)
    ensures
        plan.reply == Ok::<(), u32>(()),
        plan.notice@ == match host {
            HostImpl::Linux => ">>> called gpio_deinit (linux)"@,
            HostImpl::Sim => ">>> called gpio_deinit (sim)"@,
        },
{
    let notice = match host {
        HostImpl::Linux => ">>> called gpio_deinit (linux)".to_owned(),
        HostImpl::Sim => ">>> called gpio_deinit (sim)".to_owned(),
    };
    GpioDeinitPlan { notice, reply: Ok(()) }
}

/// The length in bytes of the zeroed static buffer that `large-static` touches:
/// 5 000 000 on Linux, 5 MiB in the simulation.
pub fn large_static_len(host: HostImpl) -> (len: usize)
    ensures
        len == match host {
            HostImpl::Linux => 5 * 1_000_000int,
            HostImpl::Sim => 5 * 1_024 * 1_024int,
        },
{
    match host {
        HostImpl::Linux => 5 * 1_000_000,
        HostImpl::Sim => 5 * 1_024 * 1_024,
    }
}

/// The reply to `large-static`, once the buffer was touched.
pub fn large_static_reply() -> (reply: Result<(), u32>)
    ensures
        reply == Ok::<(), u32>(()),
{
    Ok(())
}

} // verus!
