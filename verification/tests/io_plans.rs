use gpio_host::cli::{recovery_for, CliErrorKind, Recovery};
use gpio_host::gpio::{gpio_deinit_plan, gpio_init_plan, large_static_len, large_static_reply, GpioInitArgs, Mode};
use gpio_host::guest::GuestComponent;
use gpio_host::options::{ComponentSource, HostImpl};
use gpio_host::report::{guest_to_host_line, host_to_guest_line, instance_env_var, start_result_line};

#[test]
fn guest_report_line() {
    assert_eq!(guest_to_host_line("3", 1250), "instance=3,action=guest-to-host,elapsed=1250");
    assert_eq!(guest_to_host_line("0", 0), "instance=0,action=guest-to-host,elapsed=0");
}

#[test]
fn host_report_line() {
    assert_eq!(
        host_to_guest_line("7", ComponentSource::Js, 42),
        "instance=7,action=host-to-guest-javascript,elapsed=42"
    );
    assert_eq!(
        host_to_guest_line("0", ComponentSource::Rs, 1000000),
        "instance=0,action=host-to-guest-rust,elapsed=1000000"
    );
}

#[test]
fn start_result_lines() {
    assert_eq!(start_result_line(Ok(())), format!("res: {:?}", Ok::<(), ()>(())));
    assert_eq!(start_result_line(Err(())), format!("res: {:?}", Err::<(), ()>(())));
}

#[test]
fn env_var_name() {
    assert_eq!(instance_env_var(), "INSTANCE_NUMBER");
}

#[test]
fn linux_gpio_init_drives_pin_high() {
    let plan = gpio_init_plan(HostImpl::Linux, GpioInitArgs { port: 0, pin: 17, mode: Mode::Output });
    let r = plan.line_request.expect("linux drives a line");
    assert_eq!(r.chip_path, "/dev/gpiochip0");
    assert_eq!(r.line, 17);
    assert_eq!(r.initial_value, 0);
    assert_eq!(r.consumer, "who-is-using-this");
    assert_eq!(r.drive_value, 1);
    assert_eq!(plan.notice.as_deref(), Some(">>> called gpio_init (linux)"));
    assert_eq!(plan.reply, Ok(1));
}

#[test]
fn linux_gpio_init_ignores_port_and_mode() {
    let plan = gpio_init_plan(HostImpl::Linux, GpioInitArgs { port: 9, pin: 4, mode: Mode::Input });
    assert_eq!(plan.line_request.map(|r| r.line), Some(4));
    assert_eq!(plan.reply, Ok(1));
}

#[test]
fn sim_gpio_init_touches_nothing() {
    let plan = gpio_init_plan(HostImpl::Sim, GpioInitArgs { port: 0, pin: 17, mode: Mode::Output });
    assert!(plan.line_request.is_none());
    assert!(plan.notice.is_none());
    assert_eq!(plan.reply, Ok(1));
}

#[test]
fn gpio_deinit_notices() {
    let l = gpio_deinit_plan(HostImpl::Linux, 1);
    assert_eq!(l.notice, ">>> called gpio_deinit (linux)");
    assert_eq!(l.reply, Ok(()));
    let s = gpio_deinit_plan(HostImpl::Sim, 1);
    assert_eq!(s.notice, ">>> called gpio_deinit (sim)");
    assert_eq!(s.reply, Ok(()));
}

#[test]
fn large_static_sizes() {
    assert_eq!(large_static_len(HostImpl::Linux), 5_000_000);
    assert_eq!(large_static_len(HostImpl::Sim), 5_242_880);
    assert_eq!(large_static_reply(), Ok(()));
}

#[test]
fn guest_behaviour() {
    assert_eq!(GuestComponent::start_request(), GpioInitArgs { port: 0, pin: 17, mode: Mode::Output });
    assert_eq!(GuestComponent::hold_secs(), 10);
    assert_eq!(GuestComponent::start_result(Ok(1)), Ok(()));
    assert_eq!(GuestComponent::host_to_guest(), Ok(()));
}

#[test]
fn cli_recovery() {
    assert_eq!(recovery_for(CliErrorKind::InvalidSubcommand), Recovery::ParseAsRun);
    assert_eq!(recovery_for(CliErrorKind::UnknownArgument), Recovery::ParseAsRun);
    assert_eq!(recovery_for(CliErrorKind::Other), Recovery::Exit);
}

#[test]
fn guest_led_request_drives_line_17_on_linux() {
    let plan = gpio_init_plan(HostImpl::Linux, GuestComponent::start_request());
    let r = plan.line_request.expect("linux drives the guest's pin");
    assert_eq!(r.line, 17);
    assert_eq!(r.drive_value, 1);
    assert_eq!(plan.reply, Ok(1));
}
