use gpio_host::commands::{Action, Command, RunCommand, VersionCommand};
use gpio_host::engine::{engine_settings, Allocation, BacktraceDetails, Compiler, OptLevel};
use gpio_host::options::{ComponentSource, HostImpl};

fn run(host_impl: HostImpl, instances: usize) -> RunCommand {
    RunCommand {
        component: "guest.wasm".to_string(),
        host_impl,
        instances,
        guest_source: ComponentSource::Js,
    }
}

#[test]
fn sim_starts_every_instance_on_threads() {
    let mut cmd = run(HostImpl::Sim, 3);
    let plan = cmd.execute();
    assert_eq!(plan.instances, vec!["0".to_string(), "1".to_string(), "2".to_string()]);
    assert!(plan.on_threads);
    assert_eq!(plan.host_impl, HostImpl::Sim);
    assert_eq!(plan.component, "guest.wasm");
    assert_eq!(plan.guest_source, ComponentSource::Js);
    assert_eq!(plan.engine, engine_settings(HostImpl::Sim));
    assert_eq!(cmd.instances, 3);
}

#[test]
fn sim_with_no_instances_starts_none() {
    let plan = run(HostImpl::Sim, 0).execute();
    assert!(plan.instances.is_empty());
}

#[test]
fn sim_numbers_past_ten() {
    let plan = run(HostImpl::Sim, 12).execute();
    assert_eq!(plan.instances.len(), 12);
    assert_eq!(plan.instances[10], "10");
    assert_eq!(plan.instances[11], "11");
    let mut sorted = plan.instances.clone();
    sorted.sort();
    sorted.dedup();
    assert_eq!(sorted.len(), 12);
}

#[test]
fn linux_starts_instance_zero_only() {
    for n in [0usize, 1, 5] {
        let plan = run(HostImpl::Linux, n).execute();
        assert_eq!(plan.instances, vec!["0".to_string()]);
        assert!(!plan.on_threads);
        assert_eq!(plan.engine, engine_settings(HostImpl::Linux));
    }
}

#[test]
fn command_dispatch() {
    assert!(matches!(Command::Version(VersionCommand).execute(), Action::PrintVersion));
    assert!(matches!(VersionCommand.execute(), Action::PrintVersion));
    match Command::Run(run(HostImpl::Sim, 2)).execute() {
        Action::Run(plan) => {
            assert_eq!(plan.instances, vec!["0".to_string(), "1".to_string()]);
            assert_eq!(plan.component, "guest.wasm");
        }
        Action::PrintVersion => panic!("run planned as version"),
    }
}

#[test]
fn linux_engine_settings() {
    let s = engine_settings(HostImpl::Linux);
    assert_eq!(s.backtrace_details, BacktraceDetails::Enable);
    assert!(s.component_model);
    assert!(s.async_support);
    assert_eq!(s.max_wasm_stack, None);
    assert_eq!(s.async_stack_size, None);
    assert_eq!(s.allocation, Allocation::OnDemand);
    assert_eq!(s.compiler, Compiler::Cranelift);
    assert_eq!(s.opt_level, OptLevel::SpeedAndSize);
}

#[test]
fn sim_engine_settings() {
    let s = engine_settings(HostImpl::Sim);
    assert_eq!(s.max_wasm_stack, Some(10 * 1024 * 1024));
    assert_eq!(s.async_stack_size, Some(2u64 << 31));
    assert_eq!(s.async_stack_size, Some(4_294_967_296));
    assert!(s.component_model && s.async_support);
    assert_eq!(s.compiler, Compiler::Cranelift);
}

#[test]
fn engine_stacks_fit() {
    for host in [HostImpl::Linux, HostImpl::Sim] {
        let s = engine_settings(host);
        let max = s.max_wasm_stack.unwrap_or(512 * 1024);
        let stack = s.async_stack_size.unwrap_or(2 << 20);
        assert!(max > 0 && max <= stack);
    }
}
