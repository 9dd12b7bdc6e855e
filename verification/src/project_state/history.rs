//! State-level undo/redo: whole snapshots of the project state.

use vstd::prelude::*;
use crate::project_state::types::{ProjectState, ProjectStateView};

verus! {

pub const MAX_HISTORY: usize = 50;

/// Undo and redo stacks, the most recent entry last.
pub struct UndoRedoStack {
    undo: Vec<ProjectState>,
    redo: Vec<ProjectState>,
}

/// The two stacks as sequences of state values.
pub struct HistoryView {
    pub undo: Seq<ProjectStateView>,
    pub redo: Seq<ProjectStateView>,
}

pub open spec fn state_views(v: Seq<ProjectState>) -> Seq<ProjectStateView> {
    v.map_values(|s: ProjectState| s@)
}

impl View for UndoRedoStack {
    type V = HistoryView;

    closed spec fn view(&self) -> HistoryView {
        HistoryView { undo: state_views(self.undo@), redo: state_views(self.redo@) }
    }
}

/// Together the stacks never hold more than `MAX_HISTORY` states.
pub open spec fn spec_history_bounded(h: HistoryView) -> bool {
    h.undo.len() + h.redo.len() <= MAX_HISTORY
}

/// Recording `s`: it goes on top of the undo stack, the oldest entry is
/// dropped when the stack would exceed `MAX_HISTORY`, and redo is cleared.
pub open spec fn spec_push(h: HistoryView, s: ProjectStateView) -> HistoryView {
    let pushed = h.undo.push(s);
    HistoryView {
        undo: if pushed.len() > MAX_HISTORY { pushed.drop_first() } else { pushed },
        redo: Seq::empty(),
    }
}

/// Undo with `current` on screen: the top of the undo stack comes back and
/// `current` goes on the redo stack; nothing happens when undo is empty.
pub open spec fn spec_undo(h: HistoryView, current: ProjectStateView) -> (Option<ProjectStateView>, HistoryView) {
    if h.undo.len() == 0 {
        (None, h)
    } else {
        (Some(h.undo.last()), HistoryView { undo: h.undo.drop_last(), redo: h.redo.push(current) })
    }
}

/// Redo with `current` on screen, the mirror of `spec_undo`.
pub open spec fn spec_redo(h: HistoryView, current: ProjectStateView) -> (Option<ProjectStateView>, HistoryView) {
    if h.redo.len() == 0 {
        (None, h)
    } else {
        (Some(h.redo.last()), HistoryView { undo: h.undo.push(current), redo: h.redo.drop_last() })
    }
}

pub open spec fn spec_opt_view(o: Option<ProjectState>) -> Option<ProjectStateView> {
    match o {
        Some(s) => Some(s@),
        None => None,
    }
}

impl UndoRedoStack {
    /// The stacks together hold at most `MAX_HISTORY` states.
    #[verifier::type_invariant]
    spec fn within_limit(self) -> bool {
        self.undo@.len() + self.redo@.len() <= MAX_HISTORY
    }

    pub fn new() -> (r: Self)
        ensures
            r@.undo.len() == 0,
            r@.redo.len() == 0,
            spec_history_bounded(r@),
    {
        UndoRedoStack { undo: Vec::new(), redo: Vec::new() }
    }

    pub fn push(&mut self, state: &ProjectState)
        ensures
            final(self)@ == spec_push(old(self)@, state@),
            spec_history_bounded(final(self)@),
    {
        proof {
            use_type_invariant(&*self);
        }
        let ghost h = self@;
        let mut undo: Vec<ProjectState> = Vec::new();
        std::mem::swap(&mut undo, &mut self.undo);
        assert(state_views(undo@) == h.undo);
        undo.push(state.clone());
        assert(state_views(undo@) =~= h.undo.push(state@));
        if undo.len() > MAX_HISTORY {
            undo.remove(0);
            assert(state_views(undo@) =~= h.undo.push(state@).drop_first());
        }
        self.redo = Vec::new();
        self.undo = undo;
        assert(state_views(self.redo@) =~= Seq::<ProjectStateView>::empty());
    }

    pub fn undo(&mut self, current: &ProjectState) -> (r: Option<ProjectState>)
        ensures
            (spec_opt_view(r), final(self)@) == spec_undo(old(self)@, current@),
            spec_history_bounded(final(self)@),
    {
        proof {
            use_type_invariant(&*self);
        }
        let ghost h = self@;
        if self.undo.len() == 0 {
            return None;
        }
        let mut undo: Vec<ProjectState> = Vec::new();
        let mut redo: Vec<ProjectState> = Vec::new();
        std::mem::swap(&mut undo, &mut self.undo);
        std::mem::swap(&mut redo, &mut self.redo);
        assert(state_views(undo@) == h.undo && state_views(redo@) == h.redo);
        let previous = undo.pop().unwrap();
        assert(state_views(undo@) =~= h.undo.drop_last());
        redo.push(current.clone());
        assert(state_views(redo@) =~= h.redo.push(current@));
        self.undo = undo;
        self.redo = redo;
        Some(previous)
    }

    pub fn redo(&mut self, current: &ProjectState) -> (r: Option<ProjectState>)
        ensures
            (spec_opt_view(r), final(self)@) == spec_redo(old(self)@, current@),
            spec_history_bounded(final(self)@),
    {
        proof {
            use_type_invariant(&*self);
        }
        let ghost h = self@;
        if self.redo.len() == 0 {
            return None;
        }
        let mut undo: Vec<ProjectState> = Vec::new();
        let mut redo: Vec<ProjectState> = Vec::new();
        std::mem::swap(&mut undo, &mut self.undo);
        std::mem::swap(&mut redo, &mut self.redo);
        assert(state_views(undo@) == h.undo && state_views(redo@) == h.redo);
        let next = redo.pop().unwrap();
        assert(state_views(redo@) =~= h.redo.drop_last());
        undo.push(current.clone());
        assert(state_views(undo@) =~= h.undo.push(current@));
        self.redo = redo;
        self.undo = undo;
        Some(next)
    }

    /// Whether there is something to undo; every stack is within the limit.
    /// Withdraws the most recent undo entry, when there is one; the redo
    /// stack stays as it is.
    pub fn discard_last(&mut self)
        ensures
            final(self)@.undo == (if old(self)@.undo.len() > 0 { old(self)@.undo.drop_last() } else { old(self)@.undo }),
            final(self)@.redo == old(self)@.redo,
            spec_history_bounded(final(self)@),
    {
        proof {
            use_type_invariant(&*self);
        }
        let ghost h = self@;
        let mut undo: Vec<ProjectState> = Vec::new();
        std::mem::swap(&mut undo, &mut self.undo);
        assert(state_views(undo@) == h.undo);
        if undo.len() > 0 {
            undo.pop();
            assert(state_views(undo@) =~= h.undo.drop_last());
        }
        self.undo = undo;
    }

    pub fn can_undo(&self) -> (r: bool)
        ensures
            r == (self@.undo.len() > 0),
            spec_history_bounded(self@),
    {
        proof {
            use_type_invariant(self);
        }
        self.undo.len() > 0
    }

    pub fn can_redo(&self) -> (r: bool)
        ensures
            r == (self@.redo.len() > 0),
            spec_history_bounded(self@),
    {
        proof {
            use_type_invariant(self);
        }
        self.redo.len() > 0
    }

    pub fn clear(&mut self)
        ensures
            final(self)@.undo.len() == 0,
            final(self)@.redo.len() == 0,
    {
        proof {
            use_type_invariant(&*self);
        }
        self.undo = Vec::new();
        self.redo = Vec::new();
    }
}

impl Default for UndoRedoStack {
    fn default() -> (r: Self)
        ensures
            r@.undo.len() == 0,
            r@.redo.len() == 0,
    {
        Self::new()
    }
}

/// Undo right after recording `s` gives `s` back and puts the state on
/// screen on the redo stack; a redo from there gives that state back.
pub proof fn lemma_push_then_undo_redo(h: HistoryView, s: ProjectStateView, current: ProjectStateView)
    ensures
        spec_undo(spec_push(h, s), current).0 == Some(s),
        spec_redo(spec_undo(spec_push(h, s), current).1, s).0 == Some(current),
{
}

/// Undo followed by redo (with the restored state on screen) gives back the
/// state that was on screen and leaves both stacks as they were.
pub proof fn lemma_undo_then_redo_restores(h: HistoryView, current: ProjectStateView)
    requires
        h.undo.len() > 0,
    ensures
        ({
            let (prev, h1) = spec_undo(h, current);
            let (next, h2) = spec_redo(h1, prev.unwrap());
            next == Some(current) && h2.undo =~= h.undo && h2.redo =~= h.redo
        }),
{
}

/// Redo followed by undo (with the redone state on screen) gives back the
/// state that was on screen and leaves both stacks as they were.
pub proof fn lemma_redo_then_undo_restores(h: HistoryView, current: ProjectStateView)
    requires
        h.redo.len() > 0,
    ensures
        ({
            let (next, h1) = spec_redo(h, current);
            let (prev, h2) = spec_undo(h1, next.unwrap());
            prev == Some(current) && h2.undo =~= h.undo && h2.redo =~= h.redo
        }),
{
}

/// Every operation keeps the history within `MAX_HISTORY` states.
pub proof fn lemma_history_stays_bounded(h: HistoryView, s: ProjectStateView)
    requires
        spec_history_bounded(h),
    ensures
        spec_history_bounded(spec_push(h, s)),
        spec_history_bounded(spec_undo(h, s).1),
        spec_history_bounded(spec_redo(h, s).1),
{
}

/// Recording a new state clears everything that could be redone.
pub proof fn lemma_push_clears_redo(h: HistoryView, s: ProjectStateView)
    ensures
        spec_push(h, s).redo.len() == 0,
        spec_redo(spec_push(h, s), s).0 is None,
{
}

} // verus!
