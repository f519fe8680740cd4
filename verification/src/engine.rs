use vstd::prelude::*;
use crate::options::HostImpl;

verus! {

/// How much detail a trap's backtrace carries.
#[derive(Clone, Copy, Debug, PartialEq, Eq, Structural)]
pub enum BacktraceDetails {
    /// Function names and source positions are resolved.
    Enable,
    /// Only raw frames.
    Disable,
    /// Chosen by the `WASMTIME_BACKTRACE_DETAILS` environment variable.
    Environment,
}

/// Where instance resources come from.
#[derive(Clone, Copy, Debug, PartialEq, Eq, Structural)]
pub enum Allocation {
    /// Allocated when an instance is created, released when it is dropped.
    OnDemand,
    /// Taken from a pool reserved up front.
    Pooling,
}

/// The compiler that turns WebAssembly into machine code.
#[derive(Clone, Copy, Debug, PartialEq, Eq, Structural)]
pub enum Compiler {
    /// Whatever the engine prefers.
    Auto,
    /// The optimizing compiler.
    Cranelift,
    /// The baseline compiler.
    Winch,
}

/// How hard the compiler optimizes.
#[derive(Clone, Copy, Debug, PartialEq, Eq, Structural)]
pub enum OptLevel {
    /// No optimization.
    Unoptimized,
    /// Optimize for speed.
    Speed,
    /// Optimize for speed and code size.
    SpeedAndSize,
}

/// The engine configuration that a world's runtime is built with.
/// A size that is `None` is left at the engine's default.
#[derive(Clone, Copy, Debug, PartialEq, Eq, Structural)]
pub struct EngineSettings {
    pub backtrace_details: BacktraceDetails,
    pub component_model: bool,
    pub async_support: bool,
    /// Bytes of native stack that WebAssembly code may use.
    pub max_wasm_stack: Option<u64>,
    /// Bytes of the stack that each asynchronous call runs on.
    pub async_stack_size: Option<u64>,
    pub allocation: Allocation,
    pub compiler: Compiler,
    pub opt_level: OptLevel,
}

/// The engine's own `max_wasm_stack` when none is given: 512 KiB.
pub open spec fn default_max_wasm_stack() -> nat {
    512 * 1024
}

/// The engine's own `async_stack_size` when none is given: 2 MiB.
pub open spec fn default_async_stack_size() -> nat {
    2 * 1024 * 1024
}

impl EngineSettings {
    /// The wasm stack limit the engine ends up with.
    pub open spec fn effective_max_wasm_stack(self) -> nat {
        match self.max_wasm_stack {
            Some(n) => n as nat,
            None => default_max_wasm_stack(),
        }
    }

    /// The asynchronous stack size the engine ends up with.
    pub open spec fn effective_async_stack_size(self) -> nat {
        match self.async_stack_size {
            Some(n) => n as nat,
            None => default_async_stack_size(),
        }
    }

    /// The stack sizes that the engine accepts: a wasm stack that is not empty
    /// and, with asynchronous support, fits within the asynchronous stack.
    pub open spec fn stacks_accepted(self) -> bool {
        &&& self.effective_max_wasm_stack() > 0
        &&& self.async_support ==> self.effective_max_wasm_stack()
            <= self.effective_async_stack_size()
    }
}

/// What each world configures: both run components asynchronously with full
/// backtraces, allocate on demand and compile with Cranelift for speed and
/// size; the simulated world also raises the wasm stack to 10 MiB and the
/// asynchronous stack to `2 << 31` bytes (4 GiB).
pub open spec fn spec_engine_settings(host: HostImpl) -> EngineSettings {
    EngineSettings {
        backtrace_details: BacktraceDetails::Enable,
        component_model: true,
        async_support: true,
        max_wasm_stack: match host {
            HostImpl::Linux => None,
            HostImpl::Sim => Some(10485760u64),
        },
        async_stack_size: match host {
            HostImpl::Linux => None,
            HostImpl::Sim => Some(0x1_0000_0000u64),
        },
        allocation: Allocation::OnDemand,
        compiler: Compiler::Cranelift,
        opt_level: OptLevel::SpeedAndSize,
    }
}

/// The engine configuration of a world.
pub fn engine_settings(host: HostImpl) -> (s: EngineSettings)
    ensures
        s == spec_engine_settings(host),
{
    let (max_wasm_stack, async_stack_size) = match host {
        HostImpl::Linux => (None, None),
        HostImpl::Sim => {
            let shifted: u64 = 2u64 << 31u64;
            assert(shifted == 0x1_0000_0000) by (bit_vector)
                requires
                    shifted == 2u64 << 31u64,
            ;
            (Some(10 * 1024 * 1024u64), Some(shifted))
        },
    };
    EngineSettings {
        backtrace_details: BacktraceDetails::Enable,
        component_model: true,
        async_support: true,
        max_wasm_stack,
        async_stack_size,
        allocation: Allocation::OnDemand,
        compiler: Compiler::Cranelift,
        opt_level: OptLevel::SpeedAndSize,
    }
}

/// The engine accepts the stack sizes of every world.
pub proof fn engine_settings_accepted(host: HostImpl)
    ensures
        spec_engine_settings(host).stacks_accepted(),
{
}

/// Both worlds build their engine alike: full backtraces, the component model
/// with asynchronous support, on-demand allocation, Cranelift optimizing for
/// speed and size. Linux keeps the engine's stack sizes; the simulated world
/// sets the wasm stack to 10 MiB and the asynchronous stack to `2 << 31` bytes.
pub proof fn engine_settings_values(host: HostImpl)
    ensures
        spec_engine_settings(host).backtrace_details == BacktraceDetails::Enable,
        spec_engine_settings(host).component_model,
        spec_engine_settings(host).async_support,
        spec_engine_settings(host).allocation == Allocation::OnDemand,
        spec_engine_settings(host).compiler == Compiler::Cranelift,
        spec_engine_settings(host).opt_level == OptLevel::SpeedAndSize,
        host == HostImpl::Linux ==> spec_engine_settings(host).max_wasm_stack is None
            && spec_engine_settings(host).async_stack_size is None,
        host == HostImpl::Sim ==> spec_engine_settings(host).max_wasm_stack == Some(
            (10 * 1024 * 1024) as u64,
        ) && spec_engine_settings(host).async_stack_size == Some((2 * 0x8000_0000) as u64),
{
}

} // verus!
