//! The undo/redo history: a bounded stack of snapshots to
//! undo and a stack of snapshots to redo. A snapshot is whatever the editor
//! saves of the track (its points, start grid and loop state); the history
//! never looks inside one.

use vstd::prelude::*;

verus! {

/// How many snapshots the undo stack keeps; the oldest is dropped beyond.
pub const MAX_UNDO_SNAPSHOTS: usize = 50;

/// The two stacks of a history, top of stack last.
pub struct HistoryModel<T> {
    pub undo: Seq<T>,
    pub redo: Seq<T>,
}

impl<T> HistoryModel<T> {
    /// The history after a new edit: the snapshot taken before the edit goes
    /// on top of the undo stack (dropping the oldest beyond the limit) and
    /// the redo stack is emptied.
    pub open spec fn after_push(self, snapshot: T) -> HistoryModel<T> {
        let pushed = self.undo.push(snapshot);
        HistoryModel {
            undo: if pushed.len() > MAX_UNDO_SNAPSHOTS {
                pushed.drop_first()
            } else {
                pushed
            },
            redo: Seq::empty(),
        }
    }

    /// Undo with `current` as the present state: the top undo snapshot is
    /// handed out and `current` goes on the redo stack; nothing happens when
    /// there is nothing to undo.
    pub open spec fn after_undo(self, current: T) -> (HistoryModel<T>, Option<T>) {
        if self.undo.len() == 0 {
            (self, None)
        } else {
            (
                HistoryModel { undo: self.undo.drop_last(), redo: self.redo.push(current) },
                Some(self.undo.last()),
            )
        }
    }

    /// Redo with `current` as the present state: the top redo snapshot is
    /// handed out and `current` goes on the undo stack; nothing happens when
    /// there is nothing to redo.
    pub open spec fn after_redo(self, current: T) -> (HistoryModel<T>, Option<T>) {
        if self.redo.len() == 0 {
            (self, None)
        } else {
            (
                HistoryModel { undo: self.undo.push(current), redo: self.redo.drop_last() },
                Some(self.redo.last()),
            )
        }
    }

    /// The history holds no more snapshots, undo and redo together, than the
    /// undo limit.
    pub open spec fn within_limit(self) -> bool {
        self.undo.len() + self.redo.len() <= MAX_UNDO_SNAPSHOTS
    }
}

pub struct EditorHistory<T> {
    pub undo_stack: Vec<T>,
    pub redo_stack: Vec<T>,
}

impl<T> View for EditorHistory<T> {
    type V = HistoryModel<T>;

    open spec fn view(&self) -> HistoryModel<T> {
        HistoryModel { undo: self.undo_stack@, redo: self.redo_stack@ }
    }
}

impl<T> EditorHistory<T> {
    pub fn new() -> (h: Self)
        ensures
            h@.undo == Seq::<T>::empty(),
            h@.redo == Seq::<T>::empty(),
    {
        EditorHistory { undo_stack: Vec::new(), redo_stack: Vec::new() }
    }

    /// Saves the state before an edit.
    pub fn push_snapshot(&mut self, snapshot: T)
        ensures
            final(self)@ == old(self)@.after_push(snapshot),
    {
        self.undo_stack.push(snapshot);
        if self.undo_stack.len() > MAX_UNDO_SNAPSHOTS {
            self.undo_stack.remove(0);
        }
        self.redo_stack.clear();
        proof {
            let pushed = old(self)@.undo.push(snapshot);
            if pushed.len() > MAX_UNDO_SNAPSHOTS {
                assert(pushed.remove(0) =~= pushed.drop_first());
            }
        }
    }

    /// Steps back: returns the snapshot to restore, if any, and keeps
    /// `current` for redo.
    pub fn pop_undo(&mut self, current: T) -> (restored: Option<T>)
        ensures
            (final(self)@, restored) == old(self)@.after_undo(current),
    {
        if let Some(snapshot) = self.undo_stack.pop() {
            self.redo_stack.push(current);
            Some(snapshot)
        } else {
            None
        }
    }

    /// Steps forward again: returns the snapshot to restore, if any, and
    /// keeps `current` for undo.
    pub fn pop_redo(&mut self, current: T) -> (restored: Option<T>)
        ensures
            (final(self)@, restored) == old(self)@.after_redo(current),
    {
        if let Some(snapshot) = self.redo_stack.pop() {
            self.undo_stack.push(current);
            Some(snapshot)
        } else {
            None
        }
    }
}

/// Undoing and then redoing (with the snapshot that the undo handed out as
/// the present state) gives back the state that was current before the undo
/// and leaves the history as it was.
pub proof fn lemma_undo_then_redo<T>(h: HistoryModel<T>, current: T)
    requires
        h.undo.len() > 0,
    ensures
        ({
            let (h1, restored) = h.after_undo(current);
            let (h2, again) = h1.after_redo(restored->0);
            h2 == h && again == Some(current)
        }),
{
    let (h1, restored) = h.after_undo(current);
    assert(h1.undo.push(restored->0) =~= h.undo);
    assert(h1.redo.drop_last() =~= h.redo);
}

/// Redoing and then undoing (with the snapshot that the redo handed out as
/// the present state) gives back the state that was current before the redo
/// and leaves the history as it was.
pub proof fn lemma_redo_then_undo<T>(h: HistoryModel<T>, current: T)
    requires
        h.redo.len() > 0,
    ensures
        ({
            let (h1, restored) = h.after_redo(current);
            let (h2, again) = h1.after_undo(restored->0);
            h2 == h && again == Some(current)
        }),
{
    let (h1, restored) = h.after_redo(current);
    assert(h1.redo.push(restored->0) =~= h.redo);
    assert(h1.undo.drop_last() =~= h.undo);
}

/// Right after an edit was saved, undo hands back the snapshot saved for it
/// and keeps the present state as the only thing to redo; redo has nothing
/// to give.
pub proof fn lemma_push_then_undo<T>(h: HistoryModel<T>, snapshot: T, current: T)
    ensures
        h.after_push(snapshot).after_undo(current).1 == Some(snapshot),
        h.after_push(snapshot).after_undo(current).0.redo == seq![current],
        h.after_push(snapshot).after_redo(current).1 is None,
{
    assert(h.after_push(snapshot).after_undo(current).0.redo =~= seq![current]);
}

/// Saving, undoing and redoing never make the history hold more snapshots
/// than the undo limit.
pub proof fn lemma_history_within_limit<T>(h: HistoryModel<T>, snapshot: T, current: T)
    requires
        h.within_limit(),
    ensures
        h.after_push(snapshot).within_limit(),
        h.after_undo(current).0.within_limit(),
        h.after_redo(current).0.within_limit(),
{
}

} // verus!
