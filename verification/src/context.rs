//! The per-invocation facade used by async application code.

use vstd::prelude::*;

use crate::bridge::{BridgeModel, ConnectError, EventBridge, EventSource};
use crate::registry::{bridge_ops_live, RuntimeRegistry};
use crate::handle::{
    handle_after_poll, handle_arm, handle_arm_notifies, handle_deliver, handle_poll_result,
    handle_resolve, handle_state, initial_handle, Armed, HandleModel, HandleState, ResumableHandle,
    Ticket,
};
use crate::value::Value;

verus! {

/// The resumption value a suspension yields to `until_resume`: the first
/// value of the delivered payload, or `Nil` when the resumption carried no
/// argument.
pub open spec fn value_of_payload(p: Seq<Value>) -> Value {
    if p.len() > 0 {
        p[0]
    } else {
        Value::Nil
    }
}

/// What arming with `signal` hands back on success: the armed suspension
/// and the bridge subscribed to feed it.
#[derive(Debug)]
pub struct SignalArmed {
    /// The armed suspension, exactly as `until_resume` would hand it back.
    pub armed: Armed,
    /// The one-shot bridge that forwards the event's payload into the
    /// suspension.
    pub bridge: EventBridge,
}

/// The facade for one async invocation: owns one [`ResumableHandle`] and
/// exposes the two suspension constructors, "wait until explicitly resumed"
/// and "wait for a host event".
///
/// A context is confined to the thread it was created on. Nothing in this
/// type synchronizes: correctness depends on every operation on one context
/// — arming, resolving, delivering, polling — happening on that single
/// thread. The embedding glue must keep the context out of any other
/// thread; this is a documented caller obligation, not checked at runtime.
///
/// Only the most recently armed suspension is the live resume target:
/// arming a new one supersedes any previous one, whose ticket from then on
/// polls as pending forever and whose eventual resolution lands nowhere.
pub struct Context {
    handle: ResumableHandle,
}

impl View for Context {
    type V = HandleModel;

    closed spec fn view(&self) -> HandleModel {
        self.handle@
    }
}

impl Context {
    /// Allocates a context owning a fresh handle that has never been armed.
    pub fn new() -> (ctx: Context)
        ensures
            ctx@ == initial_handle(),
    {
        Context { handle: ResumableHandle::new() }
    }

    /// Arms the owned handle and hands back the suspension to await:
    /// "suspend until something external resolves this handle". The
    /// returned `notify` flag says whether the host-visible "became
    /// resumable" notification is owed for this arming.
    pub fn until_resume(&mut self) -> (r: Armed)
        requires
            old(self)@.generation < u64::MAX,
        ensures
            final(self)@ == handle_arm(old(self)@),
            r.ticket@ == handle_arm(old(self)@).generation,
            r.notify == handle_arm_notifies(old(self)@),
    {
        self.handle.make_resumable()
    }

    /// Arms the owned handle and subscribes a one-shot bridge that forwards
    /// the event's payload as the resumption value. Succeeds exactly when
    /// the runtime is still live and `source` accepts a subscription to
    /// `name`; on failure the error is surfaced synchronously and the
    /// context is left exactly as it was — no suspension is armed. After
    /// teardown every attempt fails with `Terminated`.
    pub fn signal(
        &mut self,
        registry: &RuntimeRegistry,
        source: &EventSource,
        name: &String,
    ) -> (r: Result<SignalArmed, ConnectError>)
        requires
            old(self)@.generation < u64::MAX,
        ensures
            r is Ok <==> bridge_ops_live(registry@) && source.accepts(name@),
            r matches Ok(s) ==> final(self)@ == handle_arm(old(self)@)
                && s.armed.ticket@ == handle_arm(old(self)@).generation
                && s.armed.notify == handle_arm_notifies(old(self)@)
                && s.bridge@ == (BridgeModel {
                subscribed: true,
                target: handle_arm(old(self)@).generation,
            }),
            r is Err ==> *final(self) == *old(self),
            r matches Err(e) ==> ((e == ConnectError::Terminated) <==> !bridge_ops_live(
                registry@,
            )),
            r matches Err(e) ==> ((e == ConnectError::NoSuchEvent) <==> bridge_ops_live(registry@)
                && !source.has_event(name@)),
            r matches Err(e) ==> ((e == ConnectError::Rejected) <==> bridge_ops_live(registry@)
                && source.has_event(name@) && !source.spec_accepting()),
    {
        if registry.is_terminated() {
            return Err(ConnectError::Terminated);
        }
        match source.subscribe_check(name) {
            Err(e) => Err(e),
            Ok(()) => {
                let armed = self.handle.make_resumable();
                let bridge = EventBridge::new_subscribed(armed.ticket);
                Ok(SignalArmed { armed, bridge })
            },
        }
    }

    /// Forwards `value` to the current suspension, as the host's explicit
    /// resume call does; if nothing is armed, the call is a safe no-op.
    pub fn resolve(&mut self, value: Value)
        ensures
            final(self)@ == handle_resolve(old(self)@, seq![value]),
    {
        let mut payload: Vec<Value> = Vec::new();
        payload.push(value);
        self.handle.resolve(payload);
    }

    /// Forwards a payload aimed at the suspension named by `ticket`; it
    /// lands only if that suspension is still the current one.
    pub(crate) fn deliver(&mut self, ticket: Ticket, payload: Vec<Value>)
        ensures
            final(self)@ == handle_deliver(old(self)@, ticket@, payload@),
    {
        self.handle.deliver(ticket, payload);
    }

    /// Polls the suspension armed by `until_resume`: yields the resumption
    /// value exactly once after resolution — the payload's first value, or
    /// `Nil` when the resumption carried none — and nothing before it. A
    /// superseded ticket polls as pending forever.
    pub fn poll_value(&mut self, ticket: Ticket) -> (r: Option<Value>)
        ensures
            final(self)@ == handle_after_poll(old(self)@, ticket@),
            r matches Some(v) ==> handle_poll_result(old(self)@, ticket@) matches Some(p)
                && v == value_of_payload(p),
            r is None ==> handle_poll_result(old(self)@, ticket@) is None,
    {
        match self.handle.poll(ticket) {
            None => None,
            Some(mut payload) => {
                if payload.len() > 0 {
                    Some(payload.remove(0))
                } else {
                    Some(Value::Nil)
                }
            },
        }
    }

    /// Polls the suspension armed by `signal`: yields the event's full
    /// payload exactly once after the bridge fired, and nothing before. A
    /// superseded ticket polls as pending forever.
    pub fn poll_payload(&mut self, ticket: Ticket) -> (r: Option<Vec<Value>>)
        ensures
            final(self)@ == handle_after_poll(old(self)@, ticket@),
            r matches Some(p) ==> handle_poll_result(old(self)@, ticket@) == Some(p@),
            r is None ==> handle_poll_result(old(self)@, ticket@) is None,
    {
        self.handle.poll(ticket)
    }

    /// Whether a suspension is currently armed and unresolved.
    pub fn is_resumable(&self) -> (r: bool)
        ensures
            r == (handle_state(self@) is Resumable),
    {
        self.handle.is_resumable()
    }

    /// Whether another suspension can still be armed on this context.
    pub fn can_arm(&self) -> (r: bool)
        ensures
            r == (self@.generation < u64::MAX),
    {
        self.handle.can_arm()
    }
}

/// Connect failure leaves no suspension: a failed `signal` leaves the
/// context exactly as it was (stated in `signal`'s contract), so a later
/// `until_resume` on that unchanged state arms normally, and resolving then
/// yields the delivered value.
pub proof fn lemma_connect_failure_leaves_no_suspension(m: HandleModel, v: Seq<Value>)
    ensures
        handle_state(handle_arm(m)) is Resumable,
        handle_poll_result(handle_resolve(handle_arm(m), v), handle_arm(m).generation) == Some(v),
{
}

} // verus!
