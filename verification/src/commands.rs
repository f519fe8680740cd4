use vstd::prelude::*;
use crate::decimal::{decimal, decimal_injective, decimal_reads_back, decimal_text, digits_value};
use crate::engine::{engine_settings, spec_engine_settings, EngineSettings};
use crate::options::{ComponentSource, HostImpl};

verus! {

/// `run`: start a guest component on one of the two worlds.
pub struct RunCommand {
    /// Path of the component file.
    pub component: String,
    /// The world that serves the guest's imports (`--impl`, default `linux`).
    pub host_impl: HostImpl,
    /// How many guest instances the simulated world starts (`--instances`, default 1).
    pub instances: usize,
    /// The guest's language, shown in the measurements (`--source`, default `rust`).
    pub guest_source: ComponentSource,
}

/// `version`: print the host's version.
pub struct VersionCommand;

/// The host's subcommands.
pub enum Command {
    Version(VersionCommand),
    Run(RunCommand),
}

/// How a run proceeds: the component to load, the engine to build, and the
/// instances to start, each under its number (the guest's `INSTANCE_NUMBER`).
pub struct RunPlan {
    pub host_impl: HostImpl,
    pub component: String,
    pub guest_source: ComponentSource,
    pub engine: EngineSettings,
    /// The instances' numbers, in the order they are started.
    pub instances: Vec<String>,
    /// Whether each instance runs on a thread of its own, all joined before the run ends.
    pub on_threads: bool,
}

/// What the program does for a command.
pub enum Action {
    /// Print the version and succeed.
    PrintVersion,
    /// Run guests as planned.
    Run(RunPlan),
}

/// The numbers of the instances a world starts when `requested` are asked for:
/// the simulated world starts `0`, `1`, ... up to `requested - 1`; the Linux
/// world starts the single instance `0`, whatever was asked.
pub open spec fn instance_numbers(host: HostImpl, requested: nat) -> Seq<Seq<char>> {
    match host {
        HostImpl::Linux => seq![decimal(0)],
        HostImpl::Sim => Seq::new(requested, |i: int| decimal(i as nat)),
    }
}

impl RunCommand {
    /// Whether `plan` is the run that this command asks for.
    pub open spec fn plans(self, plan: RunPlan) -> bool {
        let numbers = instance_numbers(self.host_impl, self.instances as nat);
        &&& plan.host_impl == self.host_impl
        &&& plan.component@ == self.component@
        &&& plan.guest_source == self.guest_source
        &&& plan.engine == spec_engine_settings(self.host_impl)
        &&& plan.instances@.len() == numbers.len()
        &&& forall|i: int| 0 <= i < numbers.len() ==> #[trigger] plan.instances@[i]@ == numbers[i]
        &&& plan.on_threads == (self.host_impl == HostImpl::Sim)
    }

    /// Plans the run: the simulated world starts every requested instance on
    /// its own thread, numbered from `0`; the Linux world starts instance `0` only.
    pub fn execute(&mut self) -> (plan: RunPlan)
        ensures
            *final(self) == *old(self),
            old(self).plans(plan),
    {
        let host_impl = self.host_impl;
        let mut numbers: Vec<String> = Vec::new();
        match host_impl {
            HostImpl::Sim => {
                let n = self.instances;
                let mut i: usize = 0;
                while i < n
                    invariant
                        i <= n,
                        numbers@.len() == i,
                        forall|j: int| 0 <= j < i ==> #[trigger] numbers@[j]@ == decimal(j as nat),
                    decreases n - i,
                {
                    numbers.push(decimal_text(i as u128));
                    i = i + 1;
                }
            },
            HostImpl::Linux => {
                numbers.push(decimal_text(0));
            },
        }
        RunPlan {
            host_impl,
            component: self.component.clone(),
            guest_source: self.guest_source,
            engine: engine_settings(host_impl),
            instances: numbers,
            on_threads: match host_impl {
                HostImpl::Sim => true,
                HostImpl::Linux => false,
            },
        }
    }
}

impl VersionCommand {
    /// Asks for the version to be printed.
    pub fn execute(self) -> (action: Action)
        ensures
            action is PrintVersion,
    {
        Action::PrintVersion
    }
}

impl Command {
    /// What the program does for this command.
    pub fn execute(self) -> (action: Action)
        ensures
            match self {
                Command::Version(_) => action is PrintVersion,
                Command::Run(c) => action matches Action::Run(plan) && c.plans(plan),
            },
    {
        match self {
            Command::Version(c) => c.execute(),
            Command::Run(mut c) => Action::Run(c.execute()),
        }
    }
}

/// The simulated world starts exactly as many instances as requested; the
/// Linux world starts exactly one.
pub proof fn instance_count(host: HostImpl, requested: nat)
    ensures
        instance_numbers(host, requested).len() == match host {
            HostImpl::Sim => requested,
            HostImpl::Linux => 1,
        },
{
}

/// No two instances of a run share a number.
pub proof fn instance_numbers_distinct(host: HostImpl, requested: nat, i: int, j: int)
    requires
        0 <= i < instance_numbers(host, requested).len(),
        0 <= j < instance_numbers(host, requested).len(),
        i != j,
    ensures
        instance_numbers(host, requested)[i] != instance_numbers(host, requested)[j],
{
    if instance_numbers(host, requested)[i] == instance_numbers(host, requested)[j] {
        decimal_injective(i as nat, j as nat);
    }
}

/// Instance numbers count up from zero: in the simulated world the `i`-th
/// instance's number reads back as `i` for every `i` below the requested
/// count, so the numbers are exactly `0 .. requested - 1` in increasing order;
/// the Linux world's one instance reads back as `0`.
pub proof fn instance_numbers_count_up(host: HostImpl, requested: nat, i: int)
    requires
        0 <= i < instance_numbers(host, requested).len(),
    ensures
        digits_value(instance_numbers(host, requested)[i]) == match host {
            HostImpl::Sim => i,
            HostImpl::Linux => 0,
        },
{
    match host {
        HostImpl::Sim => decimal_reads_back(i as nat),
        HostImpl::Linux => decimal_reads_back(0),
    }
}

} // verus!
