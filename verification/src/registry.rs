//! The process-wide, exactly-once registration and teardown lifecycle.

use vstd::prelude::*;

verus! {

/// Returned when the runtime registration entry point is called more than
/// once in one process lifetime. Recoverable: the caller treats it as
/// "already initialized", not as a fatal condition.
#[derive(Clone, Copy, Debug, PartialEq, Eq, Structural)]
pub struct InitError {}

impl InitError {
    /// Creates the error value.
    pub fn new() -> (e: InitError)
        ensures
            e == (InitError {}),
    {
        InitError {}
    }

    /// A human-readable description of the failure.
    pub fn message(&self) -> (r: &'static str)
        ensures
            r@ == "async runtime must only be initialized once"@,
    {
        "async runtime must only be initialized once"
    }
}

/// Where the process stands in the runtime lifecycle.
pub enum RuntimePhase {
    /// Registration has not happened yet.
    Unregistered,
    /// The bridge types are registered with the host and in service.
    Registered,
    /// The runtime has been torn down; bridge machinery is out of service.
    Terminated,
}

/// Whether a registration attempt in phase `p` succeeds: only the first
/// one, while nothing has been registered yet.
pub open spec fn register_succeeds(p: RuntimePhase) -> bool {
    p is Unregistered
}

/// The phase after a registration attempt: the first attempt registers,
/// every later one leaves the phase exactly as it was — no side effects.
pub open spec fn phase_after_register(p: RuntimePhase) -> RuntimePhase {
    if p is Unregistered {
        RuntimePhase::Registered
    } else {
        p
    }
}

/// Whether the bridge machinery is still in service in phase `p`: teardown
/// invalidates every further bridge operation, so after `Terminated` no
/// subscription can be made and no outstanding bridge delivers.
pub open spec fn bridge_ops_live(p: RuntimePhase) -> bool {
    !(p is Terminated)
}

/// The explicit singleton carrying the process-wide lifecycle state.
///
/// The embedding constructs exactly one of these at startup and hands it by
/// reference to whatever performs registration; making the singleton
/// explicit replaces an implicit process-global. That exactly one exists
/// per process is the embedding's obligation; everything stated here holds
/// of each registry on its own.
pub struct RuntimeRegistry {
    phase: RuntimePhase,
}

impl View for RuntimeRegistry {
    type V = RuntimePhase;

    closed spec fn view(&self) -> RuntimePhase {
        self.phase
    }
}

impl RuntimeRegistry {
    /// The registry as the process starts: nothing registered yet.
    pub fn new() -> (registry: RuntimeRegistry)
        ensures
            registry@ is Unregistered,
    {
        RuntimeRegistry { phase: RuntimePhase::Unregistered }
    }

    /// Whether the bridge types are currently registered with the host.
    pub fn is_registered(&self) -> (r: bool)
        ensures
            r == (self@ is Registered),
    {
        match self.phase {
            RuntimePhase::Registered => true,
            _ => false,
        }
    }

    /// Whether the runtime has been torn down, invalidating every further
    /// bridge operation.
    pub fn is_terminated(&self) -> (r: bool)
        ensures
            r == (self@ is Terminated),
    {
        match self.phase {
            RuntimePhase::Terminated => true,
            _ => false,
        }
    }
}

/// The idempotent registration guard: the first call in a process lifetime
/// succeeds — the caller then performs the host-side type registration —
/// and every later call returns an [`InitError`] with no side effects.
pub fn register_runtime(registry: &mut RuntimeRegistry) -> (r: Result<(), InitError>)
    ensures
        r is Ok <==> register_succeeds(old(registry)@),
        final(registry)@ == phase_after_register(old(registry)@),
        r matches Err(e) ==> e == (InitError {}),
{
    match registry.phase {
        RuntimePhase::Unregistered => {
            registry.phase = RuntimePhase::Registered;
            Ok(())
        },
        _ => Err(InitError::new()),
    }
}

/// The teardown hook, invoked once at shutdown: moves the registry to
/// `Terminated`, which invalidates every further bridge operation.
///
/// From then on `EventBridge::connect` and `Context::signal` refuse every
/// subscription with `ConnectError::Terminated`, and every outstanding
/// subscription is swept: the first thing an outstanding bridge does with
/// the terminated registry — fire on its event, or an explicit disconnect —
/// releases the subscription without delivering anything, so no payload can
/// reach a torn-down suspension. Handle operations (arming, resolving,
/// polling) are not bridge operations and stay valid.
pub fn terminate_runtime(registry: &mut RuntimeRegistry)
    ensures
        final(registry)@ is Terminated,
        !bridge_ops_live(final(registry)@),
{
    registry.phase = RuntimePhase::Terminated;
}

/// Exactly-once initialization: from the initial phase the first
/// registration attempt succeeds, and after it no attempt ever succeeds
/// again — neither right after registration nor after teardown.
pub proof fn lemma_register_exactly_once()
    ensures
        register_succeeds(RuntimePhase::Unregistered),
        !register_succeeds(phase_after_register(RuntimePhase::Unregistered)),
        !register_succeeds(RuntimePhase::Terminated),
{
}

} // verus!
