//! The one-shot adapter from a host event to a suspension's resumption.

use vstd::prelude::*;

use crate::context::Context;
use crate::handle::{handle_deliver, handle_poll_result, handle_resolve, ticket_is_current, HandleModel, Ticket};
use crate::registry::{bridge_ops_live, RuntimePhase, RuntimeRegistry};
use crate::value::Value;

verus! {

/// Why subscribing to a host event failed. Surfaced synchronously by
/// [`EventBridge::connect`] and [`Context::signal`](crate::context::Context::signal);
/// on failure no suspension is armed and no partial state is left behind.
#[derive(Clone, Copy, Debug, PartialEq, Eq, Structural)]
pub enum ConnectError {
    /// The named event does not exist on the source.
    NoSuchEvent,
    /// The source knows the event but rejected the subscription.
    Rejected,
    /// The runtime has been torn down; no further bridge operation is
    /// valid.
    Terminated,
}

impl ConnectError {
    /// A human-readable description of the failure.
    pub fn message(&self) -> (r: &'static str)
        ensures
            *self is NoSuchEvent ==> r@ == "no such event on the source"@,
            *self is Rejected ==> r@ == "the source rejected the subscription"@,
            *self is Terminated ==> r@ == "the async runtime has been torn down"@,
    {
        match self {
            ConnectError::NoSuchEvent => "no such event on the source",
            ConnectError::Rejected => "the source rejected the subscription",
            ConnectError::Terminated => "the async runtime has been torn down",
        }
    }
}

/// The interface boundary of a host event source: an object exposing named,
/// subscribable events whose occurrences carry an ordered sequence of
/// values. Subscription succeeds or fails synchronously; a source that is
/// not accepting subscriptions rejects every name it knows.
pub struct EventSource {
    events: Vec<String>,
    accepting: bool,
}

impl EventSource {
    /// The names of the events this source exposes.
    pub closed spec fn spec_events(&self) -> Seq<Seq<char>> {
        self.events@.map_values(|s: String| s@)
    }

    /// Whether this source currently accepts subscriptions at all.
    pub closed spec fn spec_accepting(&self) -> bool {
        self.accepting
    }

    /// Whether this source exposes an event called `name`.
    pub open spec fn has_event(&self, name: Seq<char>) -> bool {
        exists|i: int| 0 <= i < self.spec_events().len() && self.spec_events()[i] == name
    }

    /// Whether a subscription to `name` succeeds on this source.
    pub open spec fn accepts(&self, name: Seq<char>) -> bool {
        self.has_event(name) && self.spec_accepting()
    }

    /// Describes a source exposing the given event names; `accepting` says
    /// whether it takes subscriptions.
    pub fn new(events: Vec<String>, accepting: bool) -> (source: EventSource)
        ensures
            source.spec_events() == events@.map_values(|s: String| s@),
            source.spec_accepting() == accepting,
    {
        EventSource { events, accepting }
    }

    /// Decides a subscription to `name`: success exactly when the source
    /// exposes the event and accepts subscriptions, and otherwise the error
    /// naming which of the two failed.
    pub fn subscribe_check(&self, name: &String) -> (r: Result<(), ConnectError>)
        ensures
            r is Ok <==> self.accepts(name@),
            r matches Err(e) ==> ((e == ConnectError::NoSuchEvent) <==> !self.has_event(name@)),
            r matches Err(e) ==> ((e == ConnectError::Rejected) <==> self.has_event(name@)
                && !self.spec_accepting()),
    {
        let mut found = false;
        let mut i: usize = 0;
        while i < self.events.len()
            invariant
                0 <= i <= self.events.len(),
                found <==> exists|j: int| 0 <= j < i && self.spec_events()[j] == name@,
            decreases self.events.len() - i,
        {
            proof {
                assert(self.spec_events()[i as int] == self.events@[i as int]@);
            }
            if self.events[i] == *name {
                found = true;
            }
            i = i + 1;
        }
        if !found {
            Err(ConnectError::NoSuchEvent)
        } else if !self.accepting {
            Err(ConnectError::Rejected)
        } else {
            Ok(())
        }
    }
}

/// The abstract state of an [`EventBridge`]: whether its subscription is
/// still live, and the generation of the suspension it feeds.
pub struct BridgeModel {
    /// Whether the bridge still holds its subscription.
    pub subscribed: bool,
    /// The generation of the suspension the bridge resolves when it fires.
    pub target: nat,
}

/// The bridge after it observes a firing: whatever else happens, its
/// subscription is released.
pub open spec fn bridge_after_fire(b: BridgeModel) -> BridgeModel {
    BridgeModel { subscribed: false, target: b.target }
}

/// Whether a firing delivers its payload: only a still-subscribed bridge
/// delivers, and only while the runtime has not been torn down.
pub open spec fn bridge_fire_delivers(b: BridgeModel, p: RuntimePhase) -> bool {
    b.subscribed && bridge_ops_live(p)
}

/// What a firing does to the context it targets: a subscribed bridge of a
/// live runtime delivers the payload to its suspension — which lands only
/// if that suspension is still the current one — while an unsubscribed
/// bridge, or any bridge after teardown, changes nothing.
pub open spec fn handle_after_fire(
    b: BridgeModel,
    p: RuntimePhase,
    h: HandleModel,
    payload: Seq<Value>,
) -> HandleModel {
    if bridge_fire_delivers(b, p) {
        handle_deliver(h, b.target, payload)
    } else {
        h
    }
}

/// A one-shot adapter that forwards the first occurrence of a subscribed
/// host event into a suspension, then releases its subscription. Every
/// later occurrence finds the bridge unsubscribed and has no effect.
///
/// The host glue that owns the real subscription drops it whenever the
/// bridge reports itself unsubscribed — after the first firing, after an
/// explicit [`disconnect`](EventBridge::disconnect), and before the bridge
/// is dropped — so no callback can reach a torn-down suspension.
#[derive(Debug)]
pub struct EventBridge {
    subscribed: bool,
    target: Ticket,
}

impl View for EventBridge {
    type V = BridgeModel;

    closed spec fn view(&self) -> BridgeModel {
        BridgeModel { subscribed: self.subscribed, target: self.target@ }
    }
}

impl EventBridge {
    /// A bridge whose subscription was just granted, feeding the
    /// suspension named by `ticket`.
    pub(crate) fn new_subscribed(ticket: Ticket) -> (bridge: EventBridge)
        ensures
            bridge@ == (BridgeModel { subscribed: true, target: ticket@ }),
    {
        EventBridge { subscribed: true, target: ticket }
    }

    /// Subscribes a fresh bridge to the event `name` on `source`, feeding
    /// the suspension named by `ticket`. Succeeds exactly when the runtime
    /// is still live and the source accepts the subscription; on failure
    /// nothing is left behind. After teardown every attempt fails with
    /// `Terminated`, before the source is even consulted.
    pub fn connect(
        registry: &RuntimeRegistry,
        source: &EventSource,
        name: &String,
        ticket: Ticket,
    ) -> (r: Result<EventBridge, ConnectError>)
        ensures
            r is Ok <==> bridge_ops_live(registry@) && source.accepts(name@),
            r matches Ok(bridge) ==> bridge@ == (BridgeModel {
                subscribed: true,
                target: ticket@,
            }),
            r matches Err(e) ==> ((e == ConnectError::Terminated) <==> !bridge_ops_live(
                registry@,
            )),
            r matches Err(e) ==> ((e == ConnectError::NoSuchEvent) <==> bridge_ops_live(registry@)
                && !source.has_event(name@)),
            r matches Err(e) ==> ((e == ConnectError::Rejected) <==> bridge_ops_live(registry@)
                && source.has_event(name@) && !source.spec_accepting()),
    {
        if registry.is_terminated() {
            Err(ConnectError::Terminated)
        } else {
            match source.subscribe_check(name) {
                Ok(()) => Ok(EventBridge::new_subscribed(ticket)),
                Err(e) => Err(e),
            }
        }
    }

    /// Observes one occurrence of the subscribed event, carrying `payload`.
    /// A subscribed bridge of a live runtime forwards the payload to its
    /// suspension; an already-unsubscribed bridge, or any bridge once the
    /// runtime is torn down, delivers nothing. Either way a subscribed
    /// bridge releases its subscription — after teardown this is the sweep
    /// that keeps a late event from reaching a torn-down suspension.
    pub fn fire(&mut self, registry: &RuntimeRegistry, ctx: &mut Context, payload: Vec<Value>)
        ensures
            final(self)@ == bridge_after_fire(old(self)@),
            final(ctx)@ == handle_after_fire(old(self)@, registry@, old(ctx)@, payload@),
    {
        if self.subscribed {
            self.subscribed = false;
            if !registry.is_terminated() {
                ctx.deliver(self.target, payload);
            }
        }
    }

    /// Releases the subscription without firing; called on every exit path
    /// that abandons the bridge before its event occurred.
    pub fn disconnect(&mut self)
        ensures
            final(self)@ == (BridgeModel { subscribed: false, target: old(self)@.target }),
    {
        self.subscribed = false;
    }

    /// Whether the bridge still holds its subscription.
    pub fn is_subscribed(&self) -> (r: bool)
        ensures
            r == self@.subscribed,
    {
        self.subscribed
    }
}

/// One-shot firing: while the runtime is live, a subscribed bridge aimed
/// at the current, pending suspension resolves it with the first firing's
/// payload and comes back unsubscribed; a second firing changes nothing,
/// and a poll still yields the first payload.
pub proof fn lemma_bridge_one_shot(
    b: BridgeModel,
    p: RuntimePhase,
    h: HandleModel,
    p1: Seq<Value>,
    p2: Seq<Value>,
)
    requires
        b.subscribed,
        bridge_ops_live(p),
        ticket_is_current(h, b.target),
        h.cell is Pending,
    ensures
        handle_after_fire(b, p, h, p1) == handle_resolve(h, p1),
        !bridge_after_fire(b).subscribed,
        handle_after_fire(bridge_after_fire(b), p, handle_after_fire(b, p, h, p1), p2)
            == handle_after_fire(b, p, h, p1),
        handle_poll_result(
            handle_after_fire(bridge_after_fire(b), p, handle_after_fire(b, p, h, p1), p2),
            b.target,
        ) == Some(p1),
{
}

/// Teardown invalidates further bridge operations: once the runtime is
/// terminated no connect can succeed (stated in `connect`'s contract over
/// `bridge_ops_live`), and an outstanding bridge's firing delivers nothing
/// to any context — while still releasing its subscription.
pub proof fn lemma_teardown_invalidates(b: BridgeModel, h: HandleModel, payload: Seq<Value>)
    ensures
        !bridge_ops_live(RuntimePhase::Terminated),
        handle_after_fire(b, RuntimePhase::Terminated, h, payload) == h,
        !bridge_after_fire(b).subscribed,
{
}

} // verus!
