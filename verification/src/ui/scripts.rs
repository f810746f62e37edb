//! The scripts window: the Lua code of one element, edited under a single
//! checkpoint.

use vstd::prelude::*;
use crate::model::project::{Project, first_index, ids_of};
use crate::ui::EditorUi;

verus! {

/// Opens the scripts window for the element; its first frame makes a
/// checkpoint.
pub fn open_for(editor: &mut EditorUi, id: u128)
    ensures
        final(editor).scripts_checkpointed is None,
        final(editor).scripts_target == Some(id),
        final(editor).show_scripts_window,
        final(editor).history@ == old(editor).history@,
        final(editor).selection@ == old(editor).selection@,
        *final(editor) == (EditorUi {
            scripts_checkpointed: None,
            scripts_target: Some(id),
            show_scripts_window: true,
            ..*old(editor)
        }),
{
    editor.scripts_checkpointed = None;
    editor.scripts_target = Some(id);
    editor.show_scripts_window = true;
}

/// What the scripts window does at the start of a frame: with no element to
/// edit it hides; else it makes one checkpoint per element it is opened for,
/// then returns the element, or closes when the element is gone.
pub fn prepare(editor: &mut EditorUi, project: &Project) -> (r: Option<u128>)
    ensures
        match old(editor).scripts_target {
            None => r is None && !final(editor).show_scripts_window
                && final(editor).history@ == old(editor).history@
                && final(editor).scripts_target is None
                && final(editor).scripts_checkpointed == old(editor).scripts_checkpointed,
            Some(id) => {
                &&& final(editor).history@ == (if old(editor).scripts_checkpointed != Some(id) {
                    old(editor).history@.checkpointed(project@)
                } else {
                    old(editor).history@
                })
                &&& if first_index(ids_of(project.elements@), id) is Some {
                    &&& r == Some(id)
                    &&& final(editor).scripts_target == Some(id)
                    &&& final(editor).scripts_checkpointed == Some(id)
                    &&& final(editor).show_scripts_window == old(editor).show_scripts_window
                } else {
                    &&& r is None
                    &&& final(editor).scripts_target is None
                    &&& final(editor).scripts_checkpointed is None
                    &&& !final(editor).show_scripts_window
                }
            },
        },
        final(editor).selection@ == old(editor).selection@,
        *final(editor) == (EditorUi {
            history: final(editor).history,
            scripts_target: final(editor).scripts_target,
            show_scripts_window: final(editor).show_scripts_window,
            scripts_checkpointed: final(editor).scripts_checkpointed,
            ..*old(editor)
        }),
{
    let id = match editor.scripts_target {
        None => {
            editor.show_scripts_window = false;
            return None;
        },
        Some(id) => id,
    };
    if editor.scripts_checkpointed != Some(id) {
        editor.history.checkpoint(project);
        editor.scripts_checkpointed = Some(id);
    }
    if project.element_index(id).is_none() {
        editor.show_scripts_window = false;
        editor.scripts_target = None;
        editor.scripts_checkpointed = None;
        return None;
    }
    Some(id)
}

/// What the scripts window does at the end of a frame: it stays open as the
/// window was left, and forgets its element once closed.
pub fn finish(editor: &mut EditorUi, open: bool)
    ensures
        final(editor).show_scripts_window == open,
        !open ==> final(editor).scripts_target is None && final(editor).scripts_checkpointed is None,
        open ==> final(editor).scripts_target == old(editor).scripts_target
            && final(editor).scripts_checkpointed == old(editor).scripts_checkpointed,
        final(editor).history@ == old(editor).history@,
        *final(editor) == (EditorUi {
            show_scripts_window: open,
            scripts_target: final(editor).scripts_target,
            scripts_checkpointed: final(editor).scripts_checkpointed,
            ..*old(editor)
        }),
{
    editor.show_scripts_window = open;
    if !open {
        editor.scripts_target = None;
        editor.scripts_checkpointed = None;
    }
}

} // verus!
