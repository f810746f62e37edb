//! The editing logic of the editor: what it keeps between frames besides
//! the design, and how selection, history and structural edits respond to
//! the user.

pub mod canvas;
pub mod hierarchy;
pub mod history;
pub mod input;
pub mod properties;
pub mod scripts;
pub mod toolbar;

use vstd::prelude::*;
use vstd::string::*;
use crate::codegen::script::{preorder, topological_order};
use crate::model::element::{ElementKind, UiElement};
use crate::model::expr::Num;
use crate::model::project::{
    Project, ProjectView, first_index, ids_of, lemma_removal_keeps_parentless, parentless, position_of, subtree,
};
use crate::text::{decimal, push_decimal, remove_char, strip_leading, trim_start_char, without_char};
use self::history::{History, HistoryView};
use vstd::utf8::{decode_utf8, encode_utf8, encode_utf8_decode_utf8, is_char_boundary};

verus! {

/// A layer of the selected element that the properties panel edits.
#[derive(Clone, Copy, Debug, PartialEq, Eq, Structural)]
pub enum SubLayerRef {
    Text(u128),
    Image(u128),
}

/// What the editor keeps between frames besides the design: the selection,
/// the history, the windows it shows and the edits it has been asked for.
pub struct EditorUi {
    /// The selected elements, the primary one last.
    pub selection: Vec<u128>,
    pub selected_sub_layer: Option<SubLayerRef>,
    pub show_grid: bool,
    pub snap_to_grid: bool,
    /// An element of this kind is to be added at the end of the frame.
    pub pending_add_kind: Option<ElementKind>,
    /// A close button is to be added at the end of the frame.
    pub pending_close_button: bool,
    pub show_code_window: bool,
    pub code_preview: String,
    pub canvas_bg_path: String,
    pub canvas_bg_visible: bool,
    pub canvas_bg_opacity: u8,
    pub history: History,
    pub hierarchy_search: String,
    /// The element being dragged in the hierarchy, if any.
    pub hierarchy_drag_id: Option<u128>,
    pub show_scripts_window: bool,
    /// The element whose scripts the scripts window edits.
    pub scripts_target: Option<u128>,
    /// The element for which the scripts window has made its checkpoint.
    pub scripts_checkpointed: Option<u128>,
    /// Whether the drag under way has made its checkpoint.
    pub drag_checkpointed: bool,
}

impl Default for EditorUi {
    fn default() -> (r: Self)
        ensures
            r.selection@.len() == 0,
            r.selected_sub_layer is None,
            r.show_grid,
            r.snap_to_grid,
            r.pending_add_kind is None,
            !r.pending_close_button,
            !r.show_code_window,
            r.code_preview@.len() == 0,
            r.canvas_bg_path@.len() == 0,
            r.canvas_bg_visible,
            r.canvas_bg_opacity == 255,
            r.history@.undo.len() == 0,
            r.history@.redo.len() == 0,
            r.hierarchy_search@.len() == 0,
            r.hierarchy_drag_id is None,
            !r.show_scripts_window,
            r.scripts_target is None,
            r.scripts_checkpointed is None,
            !r.drag_checkpointed,
    {
        EditorUi {
            selection: Vec::new(),
            selected_sub_layer: None,
            show_grid: true,
            snap_to_grid: true,
            pending_add_kind: None,
            pending_close_button: false,
            show_code_window: false,
            code_preview: String::new(),
            canvas_bg_path: String::new(),
            canvas_bg_visible: true,
            canvas_bg_opacity: 255,
            history: History::default(),
            hierarchy_search: String::new(),
            hierarchy_drag_id: None,
            show_scripts_window: false,
            scripts_target: None,
            scripts_checkpointed: None,
            drag_checkpointed: false,
        }
    }
}

/// The ids of `ids` that are ids of elements, in order.
pub open spec fn present_ids(elements: Seq<UiElement>, ids: Seq<u128>) -> Seq<u128>
    decreases ids.len(),
{
    if ids.len() == 0 {
        Seq::empty()
    } else {
        let rest = present_ids(elements, ids.drop_last());
        if first_index(ids_of(elements), ids.last()) is Some { rest.push(ids.last()) } else { rest }
    }
}

/// The ids of `ids` other than `x`, in order.
pub open spec fn ids_other_than(ids: Seq<u128>, x: u128) -> Seq<u128>
    decreases ids.len(),
{
    if ids.len() == 0 {
        Seq::empty()
    } else {
        let rest = ids_other_than(ids.drop_last(), x);
        if ids.last() == x { rest } else { rest.push(ids.last()) }
    }
}

/// The elements left after removing each of `ids` in turn with its
/// descendants.
pub open spec fn after_removals(elements: Seq<UiElement>, ids: Seq<u128>) -> Seq<UiElement>
    decreases ids.len(),
{
    if ids.len() == 0 {
        elements
    } else {
        let e = after_removals(elements, ids.drop_last());
        Project::kept(e, subtree(e, ids.last(), e.len() as nat))
    }
}

/// One call of `checkpoint_if_drag_start` on the design `p`: the history
/// and whether the drag has made its checkpoint, after the call.
pub open spec fn drag_step(h: HistoryView, checkpointed: bool, p: ProjectView, dragging: bool) -> (HistoryView, bool) {
    (if dragging && !checkpointed { h.checkpointed(p) } else { h }, dragging)
}

/// Consecutive calls of `checkpoint_if_drag_start` during a drag, on the
/// designs `ps` in turn.
pub open spec fn dragged(h: HistoryView, checkpointed: bool, ps: Seq<ProjectView>) -> (HistoryView, bool)
    decreases ps.len(),
{
    if ps.len() == 0 {
        (h, checkpointed)
    } else {
        let (h1, c1) = dragged(h, checkpointed, ps.drop_last());
        drag_step(h1, c1, ps.last(), true)
    }
}

/// A drag makes exactly one checkpoint, of the design at its first frame,
/// however many frames it lasts; a frame without dragging re-arms it, so
/// the next drag makes its own.
pub proof fn lemma_one_checkpoint_per_drag(h: HistoryView, ps: Seq<ProjectView>, p: ProjectView)
    requires
        ps.len() >= 1,
    ensures
        dragged(h, false, ps) == (h.checkpointed(ps[0]), true),
        drag_step(dragged(h, false, ps).0, true, p, false) == (h.checkpointed(ps[0]), false),
    decreases ps.len(),
{
    let front = ps.drop_last();
    if ps.len() > 1 {
        lemma_one_checkpoint_per_drag(h, front, p);
        assert(front[0] == ps[0]);
        assert(dragged(h, false, front) == (h.checkpointed(ps[0]), true));
    } else {
        assert(front.len() == 0);
        assert(dragged(h, false, front) == (h, false));
        assert(ps.last() == ps[0]);
    }
    assert(dragged(h, false, ps) == drag_step(dragged(h, false, front).0, dragged(h, false, front).1, ps.last(), true));
}

/// The name of an element added from the palette when the design has `n`
/// elements: the kind's label without its leading `D`s and its spaces,
/// `_` and `n`.
pub open spec fn new_element_name(kind: ElementKind, n: nat) -> Seq<char> {
    without_char(strip_leading(kind.label_of(), 'D'), ' ') + "_"@ + decimal(n)
}

/// The ids of the tree under `root` in depth-first order, as the hierarchy
/// lists them.
pub fn flatten_hierarchy(project: &Project, root: u128) -> (r: Vec<u128>)
    ensures
        r@ == preorder(project.elements@, root, project.elements@.len() as nat),
{
    topological_order(project, root)
}

/// The name that an element of the kind added from the palette gets when
/// the design has `n` elements (see `new_element_name`).
pub fn element_name_for(kind: ElementKind, n: usize) -> (r: String)
    ensures
        r@ == new_element_name(kind, n as nat),
{
    let short = trim_start_char(kind.label(), 'D');
    let mut name = remove_char(short.as_str(), ' ');
    name.append("_");
    push_decimal(&mut name, n as u128);
    name
}

/// The path as the background section shows it: whole when its UTF-8 form
/// has at most 40 bytes, else `...` and its last 37 bytes.
pub open spec fn shown_path(path: Seq<char>) -> Seq<char> {
    let b = encode_utf8(path);
    if b.len() <= 40 {
        path
    } else {
        "..."@ + decode_utf8(b.subrange(b.len() - 37, b.len() as int))
    }
}

/// The path as the background section shows it (see `shown_path`); where
/// it is cut, the cut must fall between two characters. (A string has no
/// more bytes than `usize` counts.)
pub fn truncate_path(path: &str) -> (r: String)
    requires
        encode_utf8(path@).len() <= usize::MAX,
        encode_utf8(path@).len() <= 40 || is_char_boundary(encode_utf8(path@), encode_utf8(path@).len() - 37),
    ensures
        r@ == shown_path(path@),
{
    let n = path.len();
    if n <= 40 {
        return String::from_str(path);
    }
    let (_, tail) = path.split_at(n - 37);
    proof {
        encode_utf8_decode_utf8(tail@);
    }
    let mut r = String::from_str("...");
    r.append(tail);
    r
}

impl EditorUi {
    /// The primary selected element: the last selected one.
    pub fn primary(&self) -> (r: Option<u128>)
        ensures
            r == (if self.selection@.len() == 0 { None } else { Some(self.selection@.last()) }),
    {
        if self.selection.len() == 0 {
            None
        } else {
            Some(self.selection[self.selection.len() - 1])
        }
    }

    /// Whether the element is selected.
    pub fn is_selected(&self, id: u128) -> (r: bool)
        ensures
            r == self.selection@.contains(id),
    {
        crate::model::project::contains_id(&self.selection, id)
    }

    /// Selects the element alone, with no layer of it.
    pub fn select_single(&mut self, id: u128)
        ensures
            final(self).selection@ == seq![id],
            final(self).selected_sub_layer is None,
            final(self).history@ == old(self).history@,
            final(self).scripts_target == old(self).scripts_target,
            final(self).show_scripts_window == old(self).show_scripts_window,
            final(self).scripts_checkpointed == old(self).scripts_checkpointed,
            final(self).drag_checkpointed == old(self).drag_checkpointed,
            final(self).hierarchy_drag_id == old(self).hierarchy_drag_id,
            final(self).pending_add_kind == old(self).pending_add_kind,
            final(self).pending_close_button == old(self).pending_close_button,
            *final(self) == (EditorUi { selection: final(self).selection, selected_sub_layer: None, ..*old(self) }),
    {
        self.selection = vec![id];
        self.selected_sub_layer = None;
    }

    /// Removes the element from the selection where it is in it, else adds
    /// it as the primary one.
    pub fn toggle_selection(&mut self, id: u128)
        ensures
            final(self).selection@ == (match first_index(old(self).selection@, id) {
                Some(i) => old(self).selection@.remove(i),
                None => old(self).selection@.push(id),
            }),
            final(self).selected_sub_layer == old(self).selected_sub_layer,
            final(self).history@ == old(self).history@,
            *final(self) == (EditorUi { selection: final(self).selection, ..*old(self) }),
    {
        match position_of(&self.selection, id) {
            Some(pos) => {
                self.selection.remove(pos);
            },
            None => {
                self.selection.push(id);
            },
        }
    }

    /// Selects the elements between `from` and `to` in hierarchy order, both
    /// included; only `to` where either is not in the tree under the root.
    pub fn select_range(&mut self, project: &Project, from: u128, to: u128)
        ensures
            ({
                let flat = preorder(project.elements@, project.root_id, project.elements@.len() as nat);
                match (first_index(flat, from), first_index(flat, to)) {
                    (Some(a), Some(b)) => final(self).selection@ == (if a <= b {
                        flat.subrange(a, b + 1)
                    } else {
                        flat.subrange(b, a + 1)
                    }),
                    _ => final(self).selection@ == seq![to],
                }
            }),
            final(self).selected_sub_layer is None,
            final(self).history@ == old(self).history@,
            *final(self) == (EditorUi { selection: final(self).selection, selected_sub_layer: None, ..*old(self) }),
    {
        let flat = flatten_hierarchy(project, project.root_id);
        let a = match position_of(&flat, from) {
            Some(a) => a,
            None => {
                self.select_single(to);
                return;
            },
        };
        let b = match position_of(&flat, to) {
            Some(b) => b,
            None => {
                self.select_single(to);
                return;
            },
        };
        let (lo, hi) = if a <= b { (a, b) } else { (b, a) };
        let mut range: Vec<u128> = Vec::new();
        let mut i = lo;
        while i <= hi
            invariant
                lo <= i <= hi + 1,
                hi < flat.len(),
                range@ == flat@.subrange(lo as int, i as int),
            decreases hi + 1 - i,
        {
            range.push(flat[i]);
            assert(range@ =~= flat@.subrange(lo as int, i + 1));
            i = i + 1;
        }
        self.selection = range;
        self.selected_sub_layer = None;
    }

    /// After the design changed under the editor (undo, redo, removal):
    /// drops the selected ids that no element has any more, selects the
    /// root when none is left, and closes the scripts window when its
    /// element is gone.
    pub fn sync_selection_after_project_change(&mut self, project: &Project)
        ensures
            ({
                let kept = present_ids(project.elements@, old(self).selection@);
                final(self).selection@ == (if kept.len() == 0 { seq![project.root_id] } else { kept })
            }),
            (old(self).scripts_target matches Some(t) && first_index(ids_of(project.elements@), t) is None) ==> {
                &&& final(self).scripts_target is None
                &&& !final(self).show_scripts_window
                &&& final(self).scripts_checkpointed is None
            },
            !(old(self).scripts_target matches Some(t) && first_index(ids_of(project.elements@), t) is None) ==> {
                &&& final(self).scripts_target == old(self).scripts_target
                &&& final(self).show_scripts_window == old(self).show_scripts_window
                &&& final(self).scripts_checkpointed == old(self).scripts_checkpointed
            },
            final(self).selection@.len() > 0,
            forall|i: int| 0 <= i < final(self).selection@.len() ==> #[trigger] final(self).selection@[i] == project.root_id
                || first_index(ids_of(project.elements@), final(self).selection@[i]) is Some,
            final(self).selected_sub_layer == old(self).selected_sub_layer,
            final(self).history@ == old(self).history@,
            *final(self) == (EditorUi {
                selection: final(self).selection,
                scripts_target: final(self).scripts_target,
                show_scripts_window: final(self).show_scripts_window,
                scripts_checkpointed: final(self).scripts_checkpointed,
                ..*old(self)
            }),
    {
        let ghost sel = self.selection@;
        let mut kept: Vec<u128> = Vec::new();
        let mut i: usize = 0;
        while i < self.selection.len()
            invariant
                sel == self.selection@,
                i <= sel.len(),
                kept@ == present_ids(project.elements@, sel.subrange(0, i as int)),
            decreases sel.len() - i,
        {
            assert(sel.subrange(0, i + 1).drop_last() =~= sel.subrange(0, i as int));
            let id = self.selection[i];
            if project.element_index(id).is_some() {
                kept.push(id);
            }
            i = i + 1;
        }
        assert(sel.subrange(0, sel.len() as int) =~= sel);
        proof { lemma_present_ids(project.elements@, sel); }
        if kept.len() == 0 {
            kept.push(project.root_id);
        }
        self.selection = kept;
        if let Some(t) = self.scripts_target {
            if project.element_index(t).is_none() {
                self.scripts_target = None;
                self.show_scripts_window = false;
                self.scripts_checkpointed = None;
            }
        }
    }

    /// Makes one checkpoint when a drag starts, and none for the rest of the
    /// drag.
    pub fn checkpoint_if_drag_start(&mut self, project: &Project, dragging: bool)
        ensures
            final(self).history@ == (if dragging && !old(self).drag_checkpointed {
                old(self).history@.checkpointed(project@)
            } else {
                old(self).history@
            }),
            final(self).drag_checkpointed == dragging,
            (final(self).history@, final(self).drag_checkpointed)
                == drag_step(old(self).history@, old(self).drag_checkpointed, project@, dragging),
            final(self).selection@ == old(self).selection@,
            *final(self) == (EditorUi {
                history: final(self).history,
                drag_checkpointed: final(self).drag_checkpointed,
                ..*old(self)
            }),
    {
        if dragging && !self.drag_checkpointed {
            self.history.checkpoint(project);
            self.drag_checkpointed = true;
        }
        if !dragging {
            self.drag_checkpointed = false;
        }
    }
}

/// The ids that `present_ids` keeps are ids of elements.
pub proof fn lemma_present_ids(elements: Seq<UiElement>, ids: Seq<u128>)
    ensures
        forall|i: int| 0 <= i < present_ids(elements, ids).len()
            ==> first_index(ids_of(elements), #[trigger] present_ids(elements, ids)[i]) is Some,
    decreases ids.len(),
{
    if ids.len() > 0 {
        lemma_present_ids(elements, ids.drop_last());
        let rest = present_ids(elements, ids.drop_last());
        let p = present_ids(elements, ids);
        assert forall|i: int| 0 <= i < p.len() implies first_index(ids_of(elements), #[trigger] p[i]) is Some by {
            if i < rest.len() {
                assert(p[i] == rest[i]);
            }
        }
    }
}

/// `ids_other_than` leaves `x` out and keeps nothing that was not there.
pub proof fn lemma_other_than(ids: Seq<u128>, x: u128)
    ensures
        !ids_other_than(ids, x).contains(x),
        forall|y: u128| ids_other_than(ids, x).contains(y) ==> ids.contains(y),
    decreases ids.len(),
{
    if ids.len() > 0 {
        lemma_other_than(ids.drop_last(), x);
        let rest = ids_other_than(ids.drop_last(), x);
        assert forall|y: u128| ids_other_than(ids, x).contains(y) implies ids.contains(y) by {
            if rest.contains(y) {
                let k = choose|k: int| 0 <= k < rest.len() && rest[k] == y;
                assert(ids.drop_last().contains(y));
                let m = choose|m: int| 0 <= m < ids.drop_last().len() && ids.drop_last()[m] == y;
                assert(ids[m] == y);
            } else {
                assert(ids[ids.len() - 1] == y);
            }
        }
        if ids.last() != x {
            assert(!rest.contains(x));
            assert forall|k: int| 0 <= k < rest.push(ids.last()).len() implies rest.push(ids.last())[k] != x by {
                if k < rest.len() {
                    assert(rest.push(ids.last())[k] == rest[k]);
                }
            }
        }
    }
}

/// Removing the elements of `ids` one after another keeps an element
/// without a parent whose id is not among them.
pub proof fn lemma_after_removals_keeps(elements: Seq<UiElement>, ids: Seq<u128>, e: UiElement)
    requires
        elements.contains(e),
        !ids.contains(e.id),
        parentless(elements, e.id),
    ensures
        after_removals(elements, ids).contains(e),
        parentless(after_removals(elements, ids), e.id),
    decreases ids.len(),
{
    if ids.len() > 0 {
        let rest = ids.drop_last();
        assert(!rest.contains(e.id)) by {
            if rest.contains(e.id) {
                let k = choose|k: int| 0 <= k < rest.len() && rest[k] == e.id;
                assert(ids[k] == e.id);
            }
        }
        lemma_after_removals_keeps(elements, rest, e);
        assert(ids[ids.len() - 1] != e.id);
        lemma_removal_keeps_parentless(after_removals(elements, rest), ids.last(), e);
    }
}

/// Deleting the selection never deletes the root of a design (an element
/// without a parent), whatever is selected.
pub proof fn lemma_delete_keeps_root(elements: Seq<UiElement>, selection: Seq<u128>, root: UiElement)
    requires
        elements.contains(root),
        parentless(elements, root.id),
    ensures
        after_removals(elements, ids_other_than(selection, root.id)).contains(root),
{
    lemma_other_than(selection, root.id);
    lemma_after_removals_keeps(elements, ids_other_than(selection, root.id), root);
}

impl EditorUi {
    /// Removes the selected elements other than the root, each with its
    /// descendants, after a checkpoint, and selects the root; does nothing
    /// when only the root is selected, or nothing.
    pub fn delete_selection(&mut self, project: &mut Project)
        ensures
            ({
                let ids = ids_other_than(old(self).selection@, old(project).root_id);
                if ids.len() == 0 {
                    &&& *final(project) == *old(project)
                    &&& final(self).selection@ == old(self).selection@
                    &&& final(self).history@ == old(self).history@
                } else {
                    &&& final(self).history@ == old(self).history@.checkpointed(old(project)@)
                    &&& final(project).elements@ == after_removals(old(project).elements@, ids)
                    &&& final(project).name == old(project).name
                    &&& final(project).screen_w == old(project).screen_w
                    &&& final(project).screen_h == old(project).screen_h
                    &&& final(project).root_id == old(project).root_id
                    &&& final(project).color_palette == old(project).color_palette
                    &&& final(self).selection@ == seq![old(project).root_id]
                    &&& final(self).selected_sub_layer is None
                }
            }),
            *final(self) == (EditorUi {
                selection: final(self).selection,
                selected_sub_layer: final(self).selected_sub_layer,
                history: final(self).history,
                ..*old(self)
            }),
            old(project).same_settings(*final(project)),
    {
        let root = project.root_id;
        let ghost sel = self.selection@;
        let mut ids: Vec<u128> = Vec::new();
        let mut i: usize = 0;
        while i < self.selection.len()
            invariant
                sel == self.selection@,
                i <= sel.len(),
                ids@ == ids_other_than(sel.subrange(0, i as int), root),
            decreases sel.len() - i,
        {
            assert(sel.subrange(0, i + 1).drop_last() =~= sel.subrange(0, i as int));
            let id = self.selection[i];
            if id != root {
                ids.push(id);
            }
            i = i + 1;
        }
        assert(sel.subrange(0, sel.len() as int) =~= sel);
        if ids.len() == 0 {
            return;
        }
        proof { lemma_other_than(sel, root); }
        self.history.checkpoint(project);
        let ghost start = project.elements@;
        let mut k: usize = 0;
        while k < ids.len()
            invariant
                k <= ids@.len(),
                !ids@.contains(root),
                project.root_id == root,
                project.name == old(project).name,
                project.screen_w == old(project).screen_w,
                project.screen_h == old(project).screen_h,
                project.color_palette == old(project).color_palette,
                project.elements@ == after_removals(start, ids@.subrange(0, k as int)),
            decreases ids@.len() - k,
        {
            assert(ids@.subrange(0, k + 1).drop_last() =~= ids@.subrange(0, k as int));
            assert(ids@[k as int] != root);
            project.remove_element(ids[k]);
            k = k + 1;
        }
        assert(ids@.subrange(0, ids@.len() as int) =~= ids@);
        self.select_single(root);
    }

    /// Adds the element that the palette asked for, if any: after a
    /// checkpoint, a new element of the kind named by `new_element_name` as
    /// the last child of the primary selected element (of the root when none
    /// is selected), which then is the only one selected.
    pub fn apply_pending_add(&mut self, project: &mut Project)
        ensures
            final(self).pending_add_kind is None,
            match old(self).pending_add_kind {
                None => *final(project) == *old(project) && final(self).history@ == old(self).history@
                    && final(self).selection@ == old(self).selection@,
                Some(kind) => {
                    let parent = if old(self).selection@.len() == 0 { old(project).root_id } else { old(self).selection@.last() };
                    let e = final(project).elements@.last();
                    &&& final(self).history@ == old(self).history@.checkpointed(old(project)@)
                    &&& final(project).elements@.len() == old(project).elements@.len() + 1
                    &&& final(project).elements@.drop_last() == old(project).elements@
                    &&& UiElement::is_new(UiElement { parent: None, ..e }, kind, new_element_name(kind, old(project).elements@.len() as nat))
                    &&& crate::ids::is_random_uuid(e.id)
                    &&& e.parent == Some(parent)
                    &&& final(project).root_id == old(project).root_id
                    &&& final(project).name == old(project).name
                    &&& final(self).selection@ == seq![e.id]
                    &&& final(self).selected_sub_layer is None
                },
            },
            old(self).pending_add_kind is None ==> *final(self) == *old(self),
            *final(self) == (EditorUi {
                selection: final(self).selection,
                selected_sub_layer: final(self).selected_sub_layer,
                history: final(self).history,
                pending_add_kind: None,
                ..*old(self)
            }),
            old(project).same_settings(*final(project)),
    {
        let kind = match self.pending_add_kind {
            None => return,
            Some(kind) => kind,
        };
        self.pending_add_kind = None;
        self.history.checkpoint(project);
        let parent = match self.primary() {
            Some(p) => p,
            None => project.root_id,
        };
        let name = element_name_for(kind, project.elements.len());
        let el = UiElement::new(kind, name.as_str());
        let id = project.add_element(el, parent);
        assert(project.elements@.drop_last() =~= old(project).elements@);
        self.select_single(id);
    }

    /// Adds the close button that the palette asked for, if any: after a
    /// checkpoint, a close button at `x` (see `Project::add_close_button`)
    /// as the last child of the primary selected element (of the root when
    /// none is selected), which then is the only one selected.
    pub fn apply_pending_close_button(&mut self, project: &mut Project, x: Num)
        ensures
            !final(self).pending_close_button,
            !old(self).pending_close_button ==> *final(project) == *old(project)
                && final(self).history@ == old(self).history@ && final(self).selection@ == old(self).selection@,
            old(self).pending_close_button ==> {
                let parent = if old(self).selection@.len() == 0 { old(project).root_id } else { old(self).selection@.last() };
                let e = final(project).elements@.last();
                &&& final(self).history@ == old(self).history@.checkpointed(old(project)@)
                &&& final(project).elements@.drop_last() == old(project).elements@
                &&& final(project).elements@.len() == old(project).elements@.len() + 1
                &&& e.parent == Some(parent)
                &&& Project::is_close_button(e, "CloseBtn_"@ + decimal(old(project).elements@.len() as nat), x)
                &&& final(project).root_id == old(project).root_id
                &&& final(self).selection@ == seq![e.id]
                &&& final(self).selected_sub_layer is None
            },
            !old(self).pending_close_button ==> *final(self) == *old(self),
            *final(self) == (EditorUi {
                selection: final(self).selection,
                selected_sub_layer: final(self).selected_sub_layer,
                history: final(self).history,
                pending_close_button: false,
                ..*old(self)
            }),
            old(project).same_settings(*final(project)),
    {
        if !self.pending_close_button {
            return;
        }
        self.pending_close_button = false;
        self.history.checkpoint(project);
        let parent = match self.primary() {
            Some(p) => p,
            None => project.root_id,
        };
        if let Some(id) = project.add_close_button(parent, x) {
            self.select_single(id);
        }
    }
}

} // verus!
