//! The hierarchy panel's edits: moving an element up or down among its
//! siblings, and dropping a dragged element before another.

use vstd::prelude::*;
use vstd::string::*;
use crate::codegen::script::preorder;
use crate::model::project::{Project, first_index};
use crate::ui::EditorUi;

verus! {

/// The text in lower case as `str::to_lowercase` gives it (Unicode's
/// lower-case mapping).
pub uninterp spec fn lowercase(s: Seq<char>) -> Seq<char>;

/// `str::to_lowercase`: claimed to give `lowercase` of the text, a value
/// that depends on the text alone.
#[verifier::external_body]
fn to_lowercase(s: &str) -> (r: String)
    ensures
        r@ == lowercase(s@),
{
    s.to_lowercase()
}

/// Whether `needle` occurs in `hay`.
pub open spec fn contains_text(hay: Seq<char>, needle: Seq<char>) -> bool {
    exists|i: int| 0 <= i && i + needle.len() <= hay.len() && #[trigger] hay.subrange(i, i + needle.len()) == needle
}

/// Text that occurs in `x` still occurs once more text follows `x`.
pub proof fn lemma_contains_extended(x: Seq<char>, y: Seq<char>, needle: Seq<char>)
    requires
        contains_text(x, needle),
    ensures
        contains_text(x + y, needle),
{
    let i = choose|i: int| 0 <= i && i + needle.len() <= x.len() && #[trigger] x.subrange(i, i + needle.len()) == needle;
    assert((x + y).subrange(i, i + needle.len()) =~= x.subrange(i, i + needle.len()));
}

/// Text that occurs in `y` still occurs once more text comes before `y`.
pub proof fn lemma_contains_prepended(x: Seq<char>, y: Seq<char>, needle: Seq<char>)
    requires
        contains_text(y, needle),
    ensures
        contains_text(x + y, needle),
{
    let i = choose|i: int| 0 <= i && i + needle.len() <= y.len() && #[trigger] y.subrange(i, i + needle.len()) == needle;
    assert((x + y).subrange(x.len() + i, x.len() + i + needle.len()) =~= y.subrange(i, i + needle.len()));
}

/// Text occurs in any text that ends with it.
pub proof fn lemma_contains_last(x: Seq<char>, needle: Seq<char>)
    ensures
        contains_text(x + needle, needle),
{
    assert((x + needle).subrange(x.len() as int, (x.len() + needle.len()) as int) =~= needle);
}

/// Whether `needle` occurs in `hay`.
pub fn text_contains(hay: &str, needle: &str) -> (r: bool)
    ensures
        r == contains_text(hay@, needle@),
{
    let n = hay.unicode_len();
    let m = needle.unicode_len();
    if m > n {
        return false;
    }
    let mut i: usize = 0;
    while i <= n - m
        invariant
            n == hay@.len(),
            m == needle@.len(),
            m <= n,
            i <= n - m + 1,
            forall|k: int| 0 <= k < i ==> #[trigger] hay@.subrange(k, k + m) != needle@,
        decreases n - m + 1 - i,
    {
        let mut j: usize = 0;
        while j < m && hay.get_char(i + j) == needle.get_char(j)
            invariant
                n == hay@.len(),
                m == needle@.len(),
                i + m <= n,
                j <= m,
                forall|t: int| 0 <= t < j ==> hay@[i + t] == needle@[t],
            decreases m - j,
        {
            j = j + 1;
        }
        if j == m {
            assert(hay@.subrange(i as int, i + m) =~= needle@);
            return true;
        }
        assert(hay@.subrange(i as int, i + m)[j as int] != needle@[j as int]);
        i = i + 1;
    }
    assert forall|k: int| 0 <= k && k + needle@.len() <= hay@.len() implies #[trigger] hay@.subrange(k, k + needle@.len()) != needle@ by {
        assert(k < i);
    }
    false
}

/// Whether the search text shows the element's row: an empty search shows
/// every row, any other one the rows whose name, a space and kind label
/// contain it, both in lower case.
pub open spec fn row_matches(name: Seq<char>, label: Seq<char>, search: Seq<char>) -> bool {
    let f = lowercase(search);
    f.len() == 0 || contains_text(lowercase(name + " "@ + label), f)
}

/// Whether the search text shows the element's row (see `row_matches`).
pub fn row_shown(name: &str, label: &str, search: &str) -> (r: bool)
    ensures
        r == row_matches(name@, label@, search@),
{
    let filter = to_lowercase(search);
    if filter.as_str().unicode_len() == 0 {
        return true;
    }
    let mut row = String::from_str(name);
    row.append(" ");
    row.append(label);
    let row_lower = to_lowercase(row.as_str());
    text_contains(row_lower.as_str(), filter.as_str())
}

/// Carries out the move that an up or down button of the hierarchy asked
/// for, if any: after a checkpoint, the element moves by the direction among
/// its siblings (see `Project::reorder_sibling`).
pub fn apply_pending_reorder(editor: &mut EditorUi, project: &mut Project, pending: Option<(u128, i32)>)
    requires
        old(project).elements@.len() <= i32::MAX,
    ensures
        match pending {
            None => *final(project) == *old(project) && final(editor).history@ == old(editor).history@,
            Some((id, dir)) => {
                &&& final(editor).history@ == old(editor).history@.checkpointed(old(project)@)
                &&& final(project).elements@ == match old(project).sibling_swap(id, dir as int) {
                    Some((a, b)) => old(project).elements@.update(a, old(project).elements@[b]).update(
                        b,
                        old(project).elements@[a],
                    ),
                    None => old(project).elements@,
                }
                &&& final(project).root_id == old(project).root_id
                &&& final(project).name == old(project).name
            },
        },
        final(editor).selection@ == old(editor).selection@,
        *final(editor) == (EditorUi { history: final(editor).history, ..*old(editor) }),
        old(project).same_settings(*final(project)),
{
    if let Some((id, dir)) = pending {
        editor.history.checkpoint(project);
        project.reorder_sibling(id, dir);
    }
}

/// What the hierarchy does with a drag when the pointer is released: an
/// element dropped on another one moves before it among their siblings
/// (see `Project::move_before_sibling`), after a checkpoint; the drag ends
/// in any case.
pub fn finish_drag(editor: &mut EditorUi, project: &mut Project, pointer_released: bool, drop_target: Option<u128>)
    ensures
        !pointer_released ==> *final(project) == *old(project) && final(editor).history@ == old(editor).history@
            && final(editor).hierarchy_drag_id == old(editor).hierarchy_drag_id,
        pointer_released ==> final(editor).hierarchy_drag_id is None,
        pointer_released ==> match (old(editor).hierarchy_drag_id, drop_target) {
            (Some(dragged), Some(target)) => if dragged != target {
                &&& final(editor).history@ == old(editor).history@.checkpointed(old(project)@)
                &&& final(project).elements@ == if old(project).can_move_before(dragged, target) {
                    old(project).moved_before(dragged, target)
                } else {
                    old(project).elements@
                }
                &&& final(project).root_id == old(project).root_id
                &&& final(project).name == old(project).name
            } else {
                *final(project) == *old(project) && final(editor).history@ == old(editor).history@
            },
            _ => *final(project) == *old(project) && final(editor).history@ == old(editor).history@,
        },
        final(editor).selection@ == old(editor).selection@,
        *final(editor) == (EditorUi {
            history: final(editor).history,
            hierarchy_drag_id: final(editor).hierarchy_drag_id,
            ..*old(editor)
        }),
        old(project).same_settings(*final(project)),
{
    if pointer_released {
        match (editor.hierarchy_drag_id, drop_target) {
            (Some(dragged), Some(target)) => {
                if dragged != target {
                    editor.history.checkpoint(project);
                    project.move_before_sibling(dragged, target);
                }
                editor.hierarchy_drag_id = None;
            },
            _ => {
                if editor.hierarchy_drag_id.is_some() && drop_target.is_none() {
                    editor.hierarchy_drag_id = None;
                }
            },
        }
    }
}

/// What a click on the element's row of the hierarchy does to the
/// selection: with Ctrl it toggles the element, with Shift it selects the
/// range from the primary selected element to it (the element alone when
/// none is selected), else it selects the element alone; no layer stays
/// selected.
pub fn click_node(editor: &mut EditorUi, project: &Project, id: u128, ctrl: bool, shift: bool)
    ensures
        final(editor).selected_sub_layer is None,
        final(editor).history@ == old(editor).history@,
        ctrl ==> final(editor).selection@ == (match first_index(old(editor).selection@, id) {
            Some(i) => old(editor).selection@.remove(i),
            None => old(editor).selection@.push(id),
        }),
        !ctrl && shift && old(editor).selection@.len() > 0 ==> ({
            let flat = preorder(project.elements@, project.root_id, project.elements@.len() as nat);
            match (first_index(flat, old(editor).selection@.last()), first_index(flat, id)) {
                (Some(a), Some(b)) => final(editor).selection@ == (if a <= b {
                    flat.subrange(a, b + 1)
                } else {
                    flat.subrange(b, a + 1)
                }),
                _ => final(editor).selection@ == seq![id],
            }
        }),
        !ctrl && !(shift && old(editor).selection@.len() > 0) ==> final(editor).selection@ == seq![id],
        *final(editor) == (EditorUi {
            selection: final(editor).selection,
            selected_sub_layer: None,
            ..*old(editor)
        }),
{
    if ctrl {
        editor.toggle_selection(id);
    } else if shift {
        match editor.primary() {
            Some(last) => editor.select_range(project, last, id),
            None => editor.select_single(id),
        }
    } else {
        editor.select_single(id);
    }
    editor.selected_sub_layer = None;
}

} // verus!
