//! The single-producer/single-consumer cell underlying one suspension.

use vstd::prelude::*;

verus! {

/// The abstract state of a [`SuspendCell`].
///
/// A cell starts `Pending`, becomes `Resolved` by the first (and only
/// effective) write, and becomes `Consumed` when the stored value is read.
pub enum CellModel<T> {
    /// No value has been written yet; a poll finds nothing.
    Pending,
    /// A value has been written and not yet read.
    Resolved(T),
    /// The value has been read; the cell is spent.
    Consumed,
}

/// What resolving does to a cell: the first write wins, any later write
/// leaves the cell exactly as it was.
pub open spec fn cell_resolve<T>(m: CellModel<T>, value: T) -> CellModel<T> {
    match m {
        CellModel::Pending => CellModel::Resolved(value),
        _ => m,
    }
}

/// What a poll returns: the stored value if the cell is resolved, nothing
/// otherwise.
pub open spec fn cell_poll_result<T>(m: CellModel<T>) -> Option<T> {
    match m {
        CellModel::Resolved(value) => Some(value),
        _ => None,
    }
}

/// The cell after a poll: a resolved cell is consumed, any other cell is
/// left as it was.
pub open spec fn cell_after_poll<T>(m: CellModel<T>) -> CellModel<T> {
    match m {
        CellModel::Resolved(_) => CellModel::Consumed,
        _ => m,
    }
}

/// A capacity-one mailbox for one suspension: written at most once by the
/// resuming side, read at most once by the suspended side.
///
/// Resolving an already-resolved or consumed cell is a silent no-op rather
/// than an error: only the most recent suspension matters, so a superseded
/// resumption must land harmlessly.
pub struct SuspendCell<T> {
    state: CellState<T>,
}

enum CellState<T> {
    Pending,
    Resolved(T),
    Consumed,
}

impl<T> View for SuspendCell<T> {
    type V = CellModel<T>;

    closed spec fn view(&self) -> CellModel<T> {
        match self.state {
            CellState::Pending => CellModel::Pending,
            CellState::Resolved(value) => CellModel::Resolved(value),
            CellState::Consumed => CellModel::Consumed,
        }
    }
}

impl<T> SuspendCell<T> {
    /// Creates a fresh pending cell.
    pub fn new() -> (cell: SuspendCell<T>)
        ensures
            cell@ is Pending,
    {
        SuspendCell { state: CellState::Pending }
    }

    /// Creates a cell that has already given up its value. It accepts no
    /// write and yields nothing: the slot of a suspension that is over.
    pub fn spent() -> (cell: SuspendCell<T>)
        ensures
            cell@ is Consumed,
    {
        SuspendCell { state: CellState::Consumed }
    }

    /// Writes `value` into the cell if nothing has been written yet; the
    /// first write wins and any later write is a silent no-op.
    pub fn resolve(&mut self, value: T)
        ensures
            final(self)@ == cell_resolve(old(self)@, value),
    {
        let pending = match &self.state {
            CellState::Pending => true,
            _ => false,
        };
        if pending {
            self.state = CellState::Resolved(value);
        }
    }

    /// Reads the cell: yields the stored value exactly once after
    /// resolution, and nothing before resolution or after consumption.
    pub fn poll(&mut self) -> (r: Option<T>)
        ensures
            r == cell_poll_result(old(self)@),
            final(self)@ == cell_after_poll(old(self)@),
    {
        let mut taken = CellState::Consumed;
        core::mem::swap(&mut taken, &mut self.state);
        match taken {
            CellState::Resolved(value) => Some(value),
            CellState::Pending => {
                self.state = CellState::Pending;
                None
            },
            CellState::Consumed => None,
        }
    }

    /// Whether the cell is still waiting for its write.
    pub fn is_pending(&self) -> (r: bool)
        ensures
            r == (self@ is Pending),
    {
        match &self.state {
            CellState::Pending => true,
            _ => false,
        }
    }
}

/// Single resolution: resolving a pending cell with `a` and then with `b`
/// leaves the cell resolved with `a` — the second write changes nothing —
/// and a poll then yields `a`.
pub proof fn lemma_cell_single_resolution<T>(a: T, b: T)
    ensures
        cell_resolve(cell_resolve(CellModel::Pending, a), b) == cell_resolve(CellModel::<T>::Pending, a),
        cell_poll_result(cell_resolve(cell_resolve(CellModel::Pending, a), b)) == Some(a),
{
}

} // verus!
