//! Undo records and the bounded history that holds them.
use std::collections::VecDeque;
use vstd::prelude::*;
use crate::date::Date;
use crate::model::{Status, Timestamp, Todo, TodoId, TodoView};

verus! {

/// What is needed to take back one change.
#[derive(Clone, Debug)]
pub enum UndoAction {
    Delete { todo: Todo, index: usize },
    Move { id: TodoId, previous_day: Date },
    Toggle { id: TodoId, previous_status: Status, previous_completed_at: Option<Timestamp> },
    SetStatus { id: TodoId, previous_status: Status, previous_completed_at: Option<Timestamp> },
}

/// The value of an undo record.
pub enum UndoView {
    Delete { todo: TodoView, index: int },
    Move { id: TodoId, previous_day: Date },
    Toggle { id: TodoId, previous_status: Status, previous_completed_at: Option<Timestamp> },
    SetStatus { id: TodoId, previous_status: Status, previous_completed_at: Option<Timestamp> },
}

pub open spec fn undo_view(u: UndoAction) -> UndoView {
    match u {
        UndoAction::Delete { todo, index } => UndoView::Delete { todo: todo@, index: index as int },
        UndoAction::Move { id, previous_day } => UndoView::Move { id, previous_day },
        UndoAction::Toggle { id, previous_status, previous_completed_at } => UndoView::Toggle {
            id,
            previous_status,
            previous_completed_at,
        },
        UndoAction::SetStatus { id, previous_status, previous_completed_at } => UndoView::SetStatus {
            id,
            previous_status,
            previous_completed_at,
        },
    }
}

impl View for UndoAction {
    type V = UndoView;

    open spec fn view(&self) -> UndoView {
        undo_view(*self)
    }
}

/// Undo history: the most recent records, at most `capacity` of them.
#[derive(Debug)]
pub struct UndoSlot {
    pending: VecDeque<UndoAction>,
    capacity: usize,
}

/// The value of an undo history: its records, oldest first, and its bound.
pub struct UndoSlotView {
    pub pending: Seq<UndoAction>,
    pub capacity: nat,
}

impl View for UndoSlot {
    type V = UndoSlotView;

    closed spec fn view(&self) -> UndoSlotView {
        UndoSlotView { pending: self.pending@, capacity: self.capacity as nat }
    }
}

/// The records after recording `action` into `pending` under `capacity`:
/// the oldest are dropped until at most `capacity` remain.
pub open spec fn recorded(pending: Seq<UndoAction>, action: UndoAction, capacity: nat) -> Seq<
    UndoAction,
> {
    let all = pending.push(action);
    if all.len() > capacity {
        all.skip(all.len() - capacity)
    } else {
        all
    }
}

impl UndoSlot {
    /// The default bound of the history.
    pub const DEFAULT_CAPACITY: usize = 32;

    #[verifier::type_invariant]
    pub closed spec fn inv(self) -> bool {
        1 <= self.capacity && self.pending@.len() <= self.capacity
    }

    /// Every history keeps a bound of at least one and never holds more
    /// records than its bound.
    pub proof fn law_bounded(s: UndoSlot)
        requires
            s.inv(),
        ensures
            s@.capacity >= 1,
            s@.pending.len() <= s@.capacity,
    {
    }

    /// An empty history with the default bound.
    pub fn new() -> (r: UndoSlot)
        ensures
            r@.pending == Seq::<UndoAction>::empty(),
            r@.capacity == Self::DEFAULT_CAPACITY,
    {
        Self::with_capacity(Self::DEFAULT_CAPACITY)
    }

    /// An empty history that keeps at most `capacity` records (at least one).
    pub fn with_capacity(capacity: usize) -> (r: UndoSlot)
        ensures
            r@.pending == Seq::<UndoAction>::empty(),
            r@.capacity == (if capacity >= 1 {
                capacity
            } else {
                1
            }),
    {
        let bound = if capacity >= 1 {
            capacity
        } else {
            1
        };
        UndoSlot { pending: VecDeque::new(), capacity: bound }
    }

    /// Records `action` as the most recent, dropping the oldest record when
    /// the bound would be exceeded.
    pub fn record(&mut self, action: UndoAction)
        ensures
            final(self)@.capacity == old(self)@.capacity,
            final(self)@.pending == recorded(old(self)@.pending, action, old(self)@.capacity),
    {
        proof {
            use_type_invariant(&*self);
        }
        let ghost all = self.pending@.push(action);
        let mut pending: VecDeque<UndoAction> = VecDeque::new();
        std::mem::swap(&mut pending, &mut self.pending);
        pending.push_back(action);
        if pending.len() > self.capacity {
            let _ = pending.pop_front();
            assert(pending@ =~= all.skip(all.len() - self.capacity));
        }
        self.pending = pending;
    }

    /// Forgets every record.
    pub fn clear(&mut self)
        ensures
            final(self)@.capacity == old(self)@.capacity,
            final(self)@.pending == Seq::<UndoAction>::empty(),
    {
        proof {
            use_type_invariant(&*self);
        }
        self.pending = VecDeque::new();
    }

    /// Removes and returns the most recent record.
    pub fn take(&mut self) -> (r: Option<UndoAction>)
        ensures
            final(self)@.capacity == old(self)@.capacity,
            old(self)@.pending.len() == 0 ==> r is None && final(self)@.pending == old(self)@.pending,
            old(self)@.pending.len() > 0 ==> r == Some(old(self)@.pending.last())
                && final(self)@.pending == old(self)@.pending.drop_last(),
    {
        proof {
            use_type_invariant(&*self);
        }
        let mut pending: VecDeque<UndoAction> = VecDeque::new();
        std::mem::swap(&mut pending, &mut self.pending);
        let r = pending.pop_back();
        self.pending = pending;
        r
    }
}

impl Default for UndoSlot {
    fn default() -> (r: UndoSlot)
        ensures
            r@.pending == Seq::<UndoAction>::empty(),
            r@.capacity == Self::DEFAULT_CAPACITY,
    {
        Self::new()
    }
}

/// What one records, the next `take` hands back, and the history returns to
/// what it was when nothing had to be dropped.
pub proof fn law_take_returns_last_recorded(pending: Seq<UndoAction>, action: UndoAction, capacity: nat)
    requires
        pending.len() < capacity,
    ensures
        recorded(pending, action, capacity).last() == action,
        recorded(pending, action, capacity).drop_last() == pending,
{
    assert(pending.push(action).drop_last() =~= pending);
}

/// Even when the bound forces the oldest record out, the most recent record
/// is the one just recorded.
pub proof fn law_recorded_last(pending: Seq<UndoAction>, action: UndoAction, capacity: nat)
    requires
        capacity >= 1,
        pending.len() <= capacity,
    ensures
        recorded(pending, action, capacity).len() == (if pending.len() < capacity {
            pending.len() + 1
        } else {
            capacity
        }),
        recorded(pending, action, capacity).last() == action,
{
}

} // verus!
