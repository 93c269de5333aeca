//! The host-visible handle for one in-flight suspended computation.

use vstd::prelude::*;

use crate::cell::{cell_after_poll, cell_poll_result, cell_resolve, CellModel, SuspendCell};
use crate::value::Value;

verus! {

/// The lifecycle state of a [`ResumableHandle`], as the host observes it.
pub enum HandleState {
    /// No suspension has ever been armed on this handle.
    Idle,
    /// A suspension is armed and waiting to be resolved.
    Resumable,
    /// The most recent suspension has been resolved.
    Completed,
}

/// The abstract state of a [`ResumableHandle`]: the mailbox of the current
/// suspension and the count of suspensions armed so far. The count names the
/// current suspension, so a ticket from an earlier arming can be told apart
/// from the live one.
pub struct HandleModel {
    /// The cell of the most recently armed suspension.
    pub cell: CellModel<Seq<Value>>,
    /// How many suspensions have been armed on this handle.
    pub generation: nat,
}

/// The state a handle in model `m` is in. A handle is `Resumable` exactly
/// while its current cell awaits a write; before any arming it is `Idle`,
/// and after its current suspension is resolved it is `Completed`.
pub open spec fn handle_state(m: HandleModel) -> HandleState {
    if m.cell is Pending {
        HandleState::Resumable
    } else if m.generation == 0 {
        HandleState::Idle
    } else {
        HandleState::Completed
    }
}

/// The model of a handle that has never been armed.
pub open spec fn initial_handle() -> HandleModel {
    HandleModel { cell: CellModel::Consumed, generation: 0 }
}

/// What arming does: a fresh pending cell supersedes whatever the previous
/// suspension left behind, and the generation moves on to name it.
pub open spec fn handle_arm(m: HandleModel) -> HandleModel {
    HandleModel { cell: CellModel::Pending, generation: m.generation + 1 }
}

/// Whether arming emits the host-visible "became resumable" notification:
/// exactly on a transition into `Resumable`, so re-arming a handle that is
/// already resumable stays silent.
pub open spec fn handle_arm_notifies(m: HandleModel) -> bool {
    !(handle_state(m) is Resumable)
}

/// What resolving does: the payload is written into the current cell if it
/// is still pending, and the call is a safe no-op otherwise.
pub open spec fn handle_resolve(m: HandleModel, payload: Seq<Value>) -> HandleModel {
    HandleModel { cell: cell_resolve(m.cell, payload), generation: m.generation }
}

/// Whether a ticket for generation `t` addresses the current suspension of
/// a handle in model `m`.
pub open spec fn ticket_is_current(m: HandleModel, t: nat) -> bool {
    t == m.generation
}

/// What a poll through the ticket for generation `t` returns: the resolved
/// payload if the ticket is current and the cell holds one, and nothing
/// otherwise. A superseded ticket always polls as pending.
pub open spec fn handle_poll_result(m: HandleModel, t: nat) -> Option<Seq<Value>> {
    if ticket_is_current(m, t) {
        cell_poll_result(m.cell)
    } else {
        None
    }
}

/// The handle after a poll through the ticket for generation `t`: a current
/// ticket consumes a resolved payload, everything else leaves the handle
/// untouched.
pub open spec fn handle_after_poll(m: HandleModel, t: nat) -> HandleModel {
    if ticket_is_current(m, t) {
        HandleModel { cell: cell_after_poll(m.cell), generation: m.generation }
    } else {
        m
    }
}

/// What a targeted delivery does: the payload resolves the handle only if
/// the ticket still addresses the current suspension; a delivery aimed at a
/// superseded suspension dangles safely.
pub open spec fn handle_deliver(m: HandleModel, t: nat, payload: Seq<Value>) -> HandleModel {
    if ticket_is_current(m, t) {
        handle_resolve(m, payload)
    } else {
        m
    }
}

/// Names one armed suspension. Polling with a ticket reaches the cell only
/// while the ticket's suspension is still the most recently armed one.
#[derive(Clone, Copy, Debug, PartialEq, Eq, Structural)]
pub struct Ticket {
    generation: u64,
}

impl View for Ticket {
    type V = nat;

    closed spec fn view(&self) -> nat {
        self.generation as nat
    }
}

/// What arming hands back: the ticket of the fresh suspension, and whether
/// the host-visible "became resumable" notification is owed. The caller
/// that drives the host connection emits the notification when `notify`
/// is set.
#[derive(Debug)]
pub struct Armed {
    /// Names the suspension that was just armed.
    pub ticket: Ticket,
    /// Whether this arming transitioned the handle into `Resumable` and the
    /// notification must be emitted.
    pub notify: bool,
}

/// A host-visible object representing one in-flight suspended computation.
///
/// At most one suspension is live at a time: arming a new one supersedes any
/// previous one, whose eventual resolution or poll becomes a safe no-op.
/// The handle performs no synchronization of its own; all operations on one
/// handle must happen on the single thread it was created on, an obligation
/// the embedding host glue carries.
pub struct ResumableHandle {
    cell: SuspendCell<Vec<Value>>,
    generation: u64,
}

impl View for ResumableHandle {
    type V = HandleModel;

    closed spec fn view(&self) -> HandleModel {
        HandleModel {
            cell: match self.cell@ {
                CellModel::Pending => CellModel::Pending,
                CellModel::Resolved(payload) => CellModel::Resolved(payload@),
                CellModel::Consumed => CellModel::Consumed,
            },
            generation: self.generation as nat,
        }
    }
}

impl ResumableHandle {
    /// Allocates a handle that has never been armed.
    pub fn new() -> (handle: ResumableHandle)
        ensures
            handle@ == initial_handle(),
    {
        ResumableHandle { cell: SuspendCell::spent(), generation: 0 }
    }

    /// Arms a fresh suspension, superseding any previous one, and says
    /// whether the "became resumable" notification is owed: exactly when
    /// the handle was not already `Resumable`.
    pub fn make_resumable(&mut self) -> (r: Armed)
        requires
            old(self)@.generation < u64::MAX,
        ensures
            final(self)@ == handle_arm(old(self)@),
            r.ticket@ == handle_arm(old(self)@).generation,
            r.notify == handle_arm_notifies(old(self)@),
    {
        let notify = !self.cell.is_pending();
        self.cell = SuspendCell::new();
        self.generation = self.generation + 1;
        Armed { ticket: Ticket { generation: self.generation }, notify }
    }

    /// Forwards `payload` to the current suspension if one is armed; if the
    /// handle is not armed — nobody is waiting — the call is a safe no-op.
    pub fn resolve(&mut self, payload: Vec<Value>)
        ensures
            final(self)@ == handle_resolve(old(self)@, payload@),
    {
        self.cell.resolve(payload);
    }

    /// Forwards `payload` to the suspension named by `ticket`, but only if
    /// that suspension is still the current one: a delivery aimed at a
    /// superseded suspension dangles safely.
    pub fn deliver(&mut self, ticket: Ticket, payload: Vec<Value>)
        ensures
            final(self)@ == handle_deliver(old(self)@, ticket@, payload@),
    {
        if ticket.generation == self.generation {
            self.cell.resolve(payload);
        }
    }

    /// Polls the suspension named by `ticket`: yields the resolved payload
    /// exactly once if the ticket is current, and nothing — forever — for a
    /// superseded ticket.
    pub fn poll(&mut self, ticket: Ticket) -> (r: Option<Vec<Value>>)
        ensures
            final(self)@ == handle_after_poll(old(self)@, ticket@),
            r matches Some(payload) ==> handle_poll_result(old(self)@, ticket@) == Some(payload@),
            r is None ==> handle_poll_result(old(self)@, ticket@) is None,
    {
        if ticket.generation == self.generation {
            self.cell.poll()
        } else {
            None
        }
    }

    /// Whether a suspension is currently armed and unresolved.
    pub fn is_resumable(&self) -> (r: bool)
        ensures
            r == (handle_state(self@) is Resumable),
    {
        self.cell.is_pending()
    }

    /// Whether another suspension can still be armed on this handle.
    pub fn can_arm(&self) -> (r: bool)
        ensures
            r == (self@.generation < u64::MAX),
    {
        self.generation < u64::MAX
    }
}

/// Most recent wins: arming a handle twice and then resolving with payload
/// `v` makes the second suspension's ticket yield `v`, while the first,
/// superseded ticket polls as pending and its poll leaves the handle
/// untouched.
pub proof fn lemma_most_recent_wins(m: HandleModel, v: Seq<Value>)
    ensures
        handle_poll_result(handle_resolve(handle_arm(handle_arm(m)), v), handle_arm(handle_arm(m)).generation) == Some(v),
        handle_poll_result(handle_resolve(handle_arm(handle_arm(m)), v), handle_arm(m).generation) is None,
        handle_after_poll(handle_resolve(handle_arm(handle_arm(m)), v), handle_arm(m).generation) == handle_resolve(handle_arm(handle_arm(m)), v),
{
}

/// Re-arming stays silent: arming a handle that the previous arming already
/// left `Resumable` does not emit the "became resumable" notification a
/// second time, while arming after the suspension was resolved does.
pub proof fn lemma_rearm_does_not_renotify(m: HandleModel, v: Seq<Value>)
    ensures
        !handle_arm_notifies(handle_arm(m)),
        handle_arm_notifies(handle_resolve(handle_arm(m), v)),
{
}

} // verus!
