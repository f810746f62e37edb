//! The editor's keyboard shortcuts: which edit a key press asks for, and the
//! edits that do not move anything on the canvas.

use vstd::prelude::*;
use crate::model::project::Project;
use crate::ui::{EditorUi, present_ids};

verus! {

/// The keys pressed in a frame, and the modifiers held.
#[derive(Clone, Copy, Debug, PartialEq, Eq, Structural)]
pub struct Keys {
    pub z: bool,
    pub y: bool,
    pub delete: bool,
    pub backspace: bool,
    pub left: bool,
    pub right: bool,
    pub up: bool,
    pub down: bool,
    pub ctrl: bool,
    pub shift: bool,
}

/// The edit that a key press asks for.
#[derive(Clone, Copy, Debug, PartialEq, Eq, Structural)]
pub enum Shortcut {
    Undo,
    Redo,
    /// Remove the selected elements.
    Delete,
    /// Move the selected elements by this many pixels.
    Nudge { dx: i32, dy: i32 },
    Nothing,
}

/// The edit for the keys: Ctrl+Z undoes; Ctrl+Y or Ctrl+Shift+Z redoes;
/// Delete or Backspace removes (not with Ctrl); the arrows move by one
/// pixel, by ten with Shift, left and up taking precedence.
pub open spec fn shortcut_of(k: Keys) -> Shortcut {
    if k.z && k.ctrl && !k.shift {
        Shortcut::Undo
    } else if (k.y && k.ctrl) || (k.z && k.ctrl && k.shift) {
        Shortcut::Redo
    } else if k.delete || k.backspace {
        if k.ctrl { Shortcut::Nothing } else { Shortcut::Delete }
    } else if k.left || k.right || k.up || k.down {
        let step: i32 = if k.shift { 10 } else { 1 };
        let back: i32 = if k.shift { -10i32 } else { -1i32 };
        Shortcut::Nudge {
            dx: if k.left { back } else if k.right { step } else { 0 },
            dy: if k.up { back } else if k.down { step } else { 0 },
        }
    } else {
        Shortcut::Nothing
    }
}

/// The pixels that a pair of opposite arrows moves along one axis: one
/// pixel, ten with Shift, towards the first of the pair when it is held,
/// else towards the second, else none.
pub open spec fn nudge_step(back: bool, forward: bool, shift: bool) -> i32 {
    if back {
        if shift { -10i32 } else { -1i32 }
    } else if forward {
        if shift { 10i32 } else { 1i32 }
    } else {
        0i32
    }
}

/// Ctrl+Z undoes, Ctrl+Y and Ctrl+Shift+Z redo, Delete and Backspace remove
/// the selection (nothing with Ctrl held), and the arrows move it by one
/// pixel, or ten with Shift; without any of these keys nothing happens.
pub proof fn lemma_shortcut_keys(k: Keys)
    ensures
        k.ctrl && k.z && !k.shift ==> shortcut_of(k) == Shortcut::Undo,
        k.ctrl && k.y && !(k.z && !k.shift) ==> shortcut_of(k) == Shortcut::Redo,
        k.ctrl && k.z && k.shift ==> shortcut_of(k) == Shortcut::Redo,
        !(k.ctrl && (k.z || k.y)) && (k.delete || k.backspace) ==> shortcut_of(k) == (if k.ctrl {
            Shortcut::Nothing
        } else {
            Shortcut::Delete
        }),
        !(k.ctrl && (k.z || k.y)) && !k.delete && !k.backspace && (k.left || k.right || k.up || k.down)
            ==> shortcut_of(k) == (Shortcut::Nudge { dx: nudge_step(k.left, k.right, k.shift), dy: nudge_step(k.up, k.down, k.shift) }),
        !(k.ctrl && (k.z || k.y)) && !k.delete && !k.backspace && !k.left && !k.right && !k.up && !k.down
            ==> shortcut_of(k) == Shortcut::Nothing,
{
}

/// The edit that the keys ask for (see `shortcut_of`).
pub fn shortcut(k: Keys) -> (r: Shortcut)
    ensures
        r == shortcut_of(k),
        k.ctrl && k.z && !k.shift ==> r == Shortcut::Undo,
        k.ctrl && k.y && !(k.z && !k.shift) ==> r == Shortcut::Redo,
        k.ctrl && k.z && k.shift ==> r == Shortcut::Redo,
        !(k.ctrl && (k.z || k.y)) && (k.delete || k.backspace) ==> r == (if k.ctrl {
            Shortcut::Nothing
        } else {
            Shortcut::Delete
        }),
        !(k.ctrl && (k.z || k.y)) && !k.delete && !k.backspace && (k.left || k.right || k.up || k.down)
            ==> r == (Shortcut::Nudge { dx: nudge_step(k.left, k.right, k.shift), dy: nudge_step(k.up, k.down, k.shift) }),
        !(k.ctrl && (k.z || k.y)) && !k.delete && !k.backspace && !k.left && !k.right && !k.up && !k.down
            ==> r == Shortcut::Nothing,
{
    if k.z && k.ctrl && !k.shift {
        Shortcut::Undo
    } else if (k.y && k.ctrl) || (k.z && k.ctrl && k.shift) {
        Shortcut::Redo
    } else if k.delete || k.backspace {
        if k.ctrl { Shortcut::Nothing } else { Shortcut::Delete }
    } else if k.left || k.right || k.up || k.down {
        let step: i32 = if k.shift { 10 } else { 1 };
        Shortcut::Nudge {
            dx: if k.left { -step } else if k.right { step } else { 0 },
            dy: if k.up { -step } else if k.down { step } else { 0 },
        }
    } else {
        Shortcut::Nothing
    }
}

impl EditorUi {
    /// Undo from the keyboard: goes back to the last checkpoint, if any,
    /// and then fixes the selection up for the design it brought back.
    pub fn undo_edit(&mut self, project: &mut Project) -> (r: bool)
        ensures
            r == old(self).history@.undone(old(project)@) is Some,
            match old(self).history@.undone(old(project)@) {
                Some((h, p)) => {
                    let kept = present_ids(final(project).elements@, old(self).selection@);
                    &&& final(self).history@ == h
                    &&& final(project)@ == p
                    &&& final(self).selection@ == (if kept.len() == 0 { seq![final(project).root_id] } else { kept })
                },
                None => final(self).history@ == old(self).history@ && final(project)@ == old(project)@
                    && final(self).selection@ == old(self).selection@,
            },
            *final(self) == (EditorUi {
                selection: final(self).selection,
                history: final(self).history,
                scripts_target: final(self).scripts_target,
                show_scripts_window: final(self).show_scripts_window,
                scripts_checkpointed: final(self).scripts_checkpointed,
                ..*old(self)
            }),
    {
        let r = self.history.undo(project);
        if r {
            self.sync_selection_after_project_change(project);
        }
        r
    }

    /// Redo from the keyboard: goes forward to the design that the last
    /// undo left, if any, and then fixes the selection up for it.
    pub fn redo_edit(&mut self, project: &mut Project) -> (r: bool)
        ensures
            r == old(self).history@.redone(old(project)@) is Some,
            match old(self).history@.redone(old(project)@) {
                Some((h, p)) => {
                    let kept = present_ids(final(project).elements@, old(self).selection@);
                    &&& final(self).history@ == h
                    &&& final(project)@ == p
                    &&& final(self).selection@ == (if kept.len() == 0 { seq![final(project).root_id] } else { kept })
                },
                None => final(self).history@ == old(self).history@ && final(project)@ == old(project)@
                    && final(self).selection@ == old(self).selection@,
            },
            *final(self) == (EditorUi {
                selection: final(self).selection,
                history: final(self).history,
                scripts_target: final(self).scripts_target,
                show_scripts_window: final(self).show_scripts_window,
                scripts_checkpointed: final(self).scripts_checkpointed,
                ..*old(self)
            }),
    {
        let r = self.history.redo(project);
        if r {
            self.sync_selection_after_project_change(project);
        }
        r
    }
}

} // verus!
