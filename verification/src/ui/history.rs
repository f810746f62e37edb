//! Undo and redo: the designs before and after the edits of a session.

use vstd::prelude::*;
use crate::model::project::{Project, ProjectView};

verus! {

/// How many designs the undo stack keeps at most.
pub const MAX_HISTORY: usize = 50;

/// The designs that undo and redo go back to, the latest last in each.
pub struct History {
    undo: Vec<Project>,
    redo: Vec<Project>,
}

/// A history as a value: the designs that undo and redo would bring back,
/// the next one last.
pub struct HistoryView {
    pub undo: Seq<ProjectView>,
    pub redo: Seq<ProjectView>,
}

impl HistoryView {
    /// The history after a checkpoint of the design `p`: `p` on top of the
    /// undo stack, whose oldest design goes once there are more than
    /// `MAX_HISTORY`, and nothing left to redo.
    pub open spec fn checkpointed(self, p: ProjectView) -> HistoryView {
        let pushed = self.undo.push(p);
        HistoryView {
            undo: if pushed.len() > MAX_HISTORY { pushed.drop_first() } else { pushed },
            redo: Seq::empty(),
        }
    }

    /// Undo from the design `current`: the history after it and the design
    /// that comes back, or `None` when there is nothing to undo.
    pub open spec fn undone(self, current: ProjectView) -> Option<(HistoryView, ProjectView)> {
        if self.undo.len() == 0 {
            None
        } else {
            Some((HistoryView { undo: self.undo.drop_last(), redo: self.redo.push(current) }, self.undo.last()))
        }
    }

    /// Redo from the design `current`: the history after it and the design
    /// that comes back, or `None` when there is nothing to redo.
    pub open spec fn redone(self, current: ProjectView) -> Option<(HistoryView, ProjectView)> {
        if self.redo.len() == 0 {
            None
        } else {
            Some((HistoryView { undo: self.undo.push(current), redo: self.redo.drop_last() }, self.redo.last()))
        }
    }

    /// Whether the history holds no more than `MAX_HISTORY` designs in all.
    pub open spec fn bounded(self) -> bool {
        self.undo.len() + self.redo.len() <= MAX_HISTORY
    }
}

impl View for History {
    type V = HistoryView;

    closed spec fn view(&self) -> HistoryView {
        HistoryView {
            undo: self.undo@.map_values(|p: Project| p@),
            redo: self.redo@.map_values(|p: Project| p@),
        }
    }
}

impl Default for History {
    fn default() -> (r: Self)
        ensures
            r@.undo.len() == 0,
            r@.redo.len() == 0,
    {
        History { undo: Vec::new(), redo: Vec::new() }
    }
}

impl History {
    /// Records the design as it is before an edit, so that undo can bring it
    /// back; whatever could be redone is dropped.
    pub fn checkpoint(&mut self, project: &Project)
        ensures
            final(self)@ == old(self)@.checkpointed(project@),
    {
        let ghost before = self@;
        self.undo.push(project.clone());
        if self.undo.len() > MAX_HISTORY {
            self.undo.remove(0);
        }
        self.redo.clear();
        assert(self@.undo =~= before.checkpointed(project@).undo);
        assert(self@.redo =~= before.checkpointed(project@).redo);
    }

    /// Whether there is a design to undo to.
    pub fn can_undo(&self) -> (r: bool)
        ensures
            r == (self@.undo.len() > 0),
    {
        self.undo.len() > 0
    }

    /// Whether there is a design to redo to.
    pub fn can_redo(&self) -> (r: bool)
        ensures
            r == (self@.redo.len() > 0),
    {
        self.redo.len() > 0
    }

    /// Goes back to the design of the last checkpoint, keeping the current
    /// one for redo; returns whether there was one.
    pub fn undo(&mut self, project: &mut Project) -> (r: bool)
        ensures
            r == old(self)@.undone(old(project)@) is Some,
            match old(self)@.undone(old(project)@) {
                Some((h, p)) => final(self)@ == h && final(project)@ == p,
                None => final(self)@ == old(self)@ && final(project)@ == old(project)@,
            },
    {
        let ghost before = self@;
        match self.undo.pop() {
            None => false,
            Some(prev) => {
                self.redo.push(project.clone());
                *project = prev;
                assert(self@.undo =~= before.undo.drop_last());
                assert(self@.redo =~= before.redo.push(old(project)@));
                true
            },
        }
    }

    /// Goes forward to the design that the last undo left, keeping the
    /// current one for undo; returns whether there was one.
    pub fn redo(&mut self, project: &mut Project) -> (r: bool)
        ensures
            r == old(self)@.redone(old(project)@) is Some,
            match old(self)@.redone(old(project)@) {
                Some((h, p)) => final(self)@ == h && final(project)@ == p,
                None => final(self)@ == old(self)@ && final(project)@ == old(project)@,
            },
    {
        let ghost before = self@;
        match self.redo.pop() {
            None => false,
            Some(next) => {
                self.undo.push(project.clone());
                *project = next;
                assert(self@.undo =~= before.undo.push(old(project)@));
                assert(self@.redo =~= before.redo.drop_last());
                true
            },
        }
    }

    /// Forgets every design kept for undo and redo.
    pub fn clear(&mut self)
        ensures
            final(self)@.undo.len() == 0,
            final(self)@.redo.len() == 0,
    {
        self.undo.clear();
        self.redo.clear();
    }
}

/// Undo right after a checkpoint of `p` brings `p` back, whatever the
/// design is by then.
pub proof fn lemma_undo_after_checkpoint(h: HistoryView, p: ProjectView, current: ProjectView)
    ensures
        h.checkpointed(p).undone(current) matches Some((_, back)) && back == p,
{
}

/// After a checkpoint there is nothing to redo.
pub proof fn lemma_checkpoint_clears_redo(h: HistoryView, p: ProjectView)
    ensures
        h.checkpointed(p).redone(p) is None,
{
}

/// Redo right after an undo gives back both the design and the history as
/// they were before the undo.
pub proof fn lemma_redo_after_undo(h: HistoryView, current: ProjectView)
    requires
        h.undone(current) is Some,
    ensures
        h.undone(current).unwrap().0.redone(h.undone(current).unwrap().1) == Some((h, current)),
{
    let (h2, prev) = h.undone(current).unwrap();
    assert(h2.undo.push(prev) =~= h.undo);
    assert(h2.redo.drop_last() =~= h.redo);
}

/// Undo right after a redo gives back both the design and the history as
/// they were before the redo.
pub proof fn lemma_undo_after_redo(h: HistoryView, current: ProjectView)
    requires
        h.redone(current) is Some,
    ensures
        h.redone(current).unwrap().0.undone(h.redone(current).unwrap().1) == Some((h, current)),
{
    let (h2, next) = h.redone(current).unwrap();
    assert(h2.undo.drop_last() =~= h.undo);
    assert(h2.redo.push(next) =~= h.redo);
}

/// The history never holds more than `MAX_HISTORY` designs: checkpoint,
/// undo and redo keep the bound.
pub proof fn lemma_history_bounded(h: HistoryView, p: ProjectView)
    requires
        h.bounded(),
    ensures
        h.checkpointed(p).bounded(),
        h.undone(p) matches Some((h2, _)) ==> h2.bounded(),
        h.redone(p) matches Some((h2, _)) ==> h2.bounded(),
{
}

} // verus!
