//! A design: its elements, in drawing order, under one root panel.

use vstd::prelude::*;
use vstd::string::*;
use crate::ids::{is_random_uuid, new_id};
use crate::model::element::{ElementKind, ElementView, UiElement};
use crate::model::expr::{Measure, Num, NumExpr, StrExpr};
use crate::model::layer::{ImageLayer, TextLayer};
use crate::text::{decimal, push_decimal};

verus! {

/// A design: its name, the screen size it is previewed at, the id of its
/// root panel, its elements in drawing order, and the colours of its palette.
#[derive(Debug, PartialEq)]
pub struct Project {
    pub name: String,
    pub screen_w: u32,
    pub screen_h: u32,
    pub root_id: u128,
    pub elements: Vec<UiElement>,
    pub color_palette: Vec<[u8; 4]>,
}

/// A design as a value.
pub struct ProjectView {
    pub name: Seq<char>,
    pub screen_w: u32,
    pub screen_h: u32,
    pub root_id: u128,
    pub elements: Seq<ElementView>,
    pub color_palette: Seq<[u8; 4]>,
}

impl View for Project {
    type V = ProjectView;

    open spec fn view(&self) -> ProjectView {
        ProjectView {
            name: self.name@,
            screen_w: self.screen_w,
            screen_h: self.screen_h,
            root_id: self.root_id,
            elements: self.elements@.map_values(|e: UiElement| e@),
            color_palette: self.color_palette@,
        }
    }
}

impl Clone for Project {
    fn clone(&self) -> (r: Self)
        ensures
            r@ == self@,
    {
        let mut elements: Vec<UiElement> = Vec::new();
        let mut i: usize = 0;
        while i < self.elements.len()
            invariant
                i <= self.elements@.len(),
                elements@.len() == i,
                forall|j: int| 0 <= j < i ==> #[trigger] elements@[j]@ == self.elements@[j]@,
            decreases self.elements@.len() - i,
        {
            elements.push(self.elements[i].clone());
            i = i + 1;
        }
        let mut color_palette: Vec<[u8; 4]> = Vec::new();
        let mut k: usize = 0;
        while k < self.color_palette.len()
            invariant
                k <= self.color_palette@.len(),
                color_palette@ == self.color_palette@.subrange(0, k as int),
            decreases self.color_palette@.len() - k,
        {
            color_palette.push(self.color_palette[k]);
            assert(color_palette@ =~= self.color_palette@.subrange(0, k + 1));
            k = k + 1;
        }
        let r = Project {
            name: self.name.clone(),
            screen_w: self.screen_w,
            screen_h: self.screen_h,
            root_id: self.root_id,
            elements,
            color_palette,
        };
        assert(r@.elements =~= self@.elements);
        assert(r@.color_palette =~= self@.color_palette);
        r
    }
}

/// The colours of a new design's palette.
pub open spec fn palette() -> Seq<Seq<u8>> {
    seq![
        seq![40u8, 44, 52, 220],
        seq![30u8, 32, 38, 245],
        seq![55u8, 120, 200, 255],
        seq![75u8, 140, 220, 255],
        seq![255u8, 255, 255, 255],
        seq![200u8, 200, 200, 255],
        seq![100u8, 220, 120, 255],
        seq![220u8, 80, 80, 255],
    ]
}

/// The colours of a new design's palette.
pub fn default_color_palette() -> (r: Vec<[u8; 4]>)
    ensures
        r@.map_values(|c: [u8; 4]| c@) == palette(),
{
    let r: Vec<[u8; 4]> = vec![
        [40, 44, 52, 220],
        [30, 32, 38, 245],
        [55, 120, 200, 255],
        [75, 140, 220, 255],
        [255, 255, 255, 255],
        [200, 200, 200, 255],
        [100, 220, 120, 255],
        [220, 80, 80, 255],
    ];
    assert(r@.map_values(|c: [u8; 4]| c@) =~= palette());
    r
}

/// Whether `i` is the first index in `ids` that holds `id`.
pub open spec fn is_first(ids: Seq<u128>, id: u128, i: int) -> bool {
    &&& 0 <= i < ids.len()
    &&& ids[i] == id
    &&& forall|j: int| 0 <= j < i ==> ids[j] != id
}

/// The first index in `ids` that holds `id`, if any.
pub open spec fn first_index(ids: Seq<u128>, id: u128) -> Option<int> {
    if exists|i: int| is_first(ids, id, i) {
        Some(choose|i: int| is_first(ids, id, i))
    } else {
        None
    }
}

pub proof fn lemma_first_index(ids: Seq<u128>, id: u128, i: int)
    requires
        is_first(ids, id, i),
    ensures
        first_index(ids, id) == Some(i),
{
    let k = choose|k: int| is_first(ids, id, k);
    assert(k == i);
}

/// The ids of the elements, in order.
pub open spec fn ids_of(elements: Seq<UiElement>) -> Seq<u128> {
    elements.map_values(|e: UiElement| e.id)
}

/// The ids of the elements whose parent is `parent`, in order.
pub open spec fn children(elements: Seq<UiElement>, parent: u128) -> Seq<u128>
    decreases elements.len(),
{
    if elements.len() == 0 {
        Seq::empty()
    } else {
        let rest = children(elements.drop_last(), parent);
        if elements.last().parent == Some(parent) {
            rest.push(elements.last().id)
        } else {
            rest
        }
    }
}

/// Whether `id` is in the ids.
pub fn contains_id(ids: &Vec<u128>, id: u128) -> (r: bool)
    ensures
        r == ids@.contains(id),
{
    let mut i: usize = 0;
    while i < ids.len()
        invariant
            i <= ids@.len(),
            forall|j: int| 0 <= j < i ==> ids@[j] != id,
        decreases ids@.len() - i,
    {
        if ids[i] == id {
            return true;
        }
        i = i + 1;
    }
    false
}

/// The first index in `ids` that holds `id`, if any.
pub fn position_of(ids: &Vec<u128>, id: u128) -> (r: Option<usize>)
    ensures
        match r {
            Some(i) => is_first(ids@, id, i as int),
            None => forall|j: int| 0 <= j < ids@.len() ==> ids@[j] != id,
        },
        r matches Some(i) ==> first_index(ids@, id) == Some(i as int),
        r is None ==> first_index(ids@, id) is None,
{
    let mut i: usize = 0;
    while i < ids.len()
        invariant
            i <= ids@.len(),
            forall|j: int| 0 <= j < i ==> ids@[j] != id,
        decreases ids@.len() - i,
    {
        if ids[i] == id {
            proof { lemma_first_index(ids@, id, i as int); }
            return Some(i);
        }
        i = i + 1;
    }
    None
}

/// One step down the tree from `marked`: the marked ids and the ids of the
/// elements whose parent is marked.
pub open spec fn grown(elements: Seq<UiElement>, marked: Set<u128>) -> Set<u128> {
    marked + Set::new(|x: u128| exists|i: int| 0 <= i < elements.len() && elements[i].id == x
        && (elements[i].parent matches Some(p) && marked.contains(p)))
}

/// The ids reached from `id` by going `k` times from parents to children.
pub open spec fn subtree(elements: Seq<UiElement>, id: u128, k: nat) -> Set<u128>
    decreases k,
{
    if k == 0 {
        set![id]
    } else {
        grown(elements, subtree(elements, id, (k - 1) as nat))
    }
}

/// Whether every element with the id has no parent, as the root of a
/// design has none.
pub open spec fn parentless(elements: Seq<UiElement>, x: u128) -> bool {
    forall|i: int| 0 <= i < elements.len() && #[trigger] elements[i].id == x ==> elements[i].parent is None
}

/// An element without a parent is in no other element's subtree.
pub proof fn lemma_subtree_excludes_parentless(elements: Seq<UiElement>, id: u128, x: u128, k: nat)
    requires
        x != id,
        parentless(elements, x),
    ensures
        !subtree(elements, id, k).contains(x),
    decreases k,
{
    if k > 0 {
        lemma_subtree_excludes_parentless(elements, id, x, (k - 1) as nat);
        if subtree(elements, id, k).contains(x) {
            let marked = subtree(elements, id, (k - 1) as nat);
            let i = choose|i: int| 0 <= i < elements.len() && elements[i].id == x
                && (elements[i].parent matches Some(p) && marked.contains(p));
            assert(elements[i].parent is None);
        }
    }
}

/// The elements that `kept` keeps: exactly those whose id is not in `ids`,
/// in order.
pub proof fn lemma_kept_keeps(elements: Seq<UiElement>, ids: Set<u128>, e: UiElement)
    ensures
        Project::kept(elements, ids).contains(e) <==> (elements.contains(e) && !ids.contains(e.id)),
    decreases elements.len(),
{
    if elements.len() > 0 {
        let rest = elements.drop_last();
        let last = elements.last();
        lemma_kept_keeps(rest, ids, e);
        let kr = Project::kept(rest, ids);
        let k = Project::kept(elements, ids);
        if k.contains(e) {
            if !ids.contains(last.id) && e == last {
                assert(elements[elements.len() - 1] == e);
            } else {
                if !ids.contains(last.id) {
                    let m = choose|m: int| 0 <= m < k.len() && k[m] == e;
                    assert(k == kr.push(last));
                    assert(m < kr.len());
                    assert(kr[m] == e);
                    assert(kr.contains(e));
                }
                let m = choose|m: int| 0 <= m < rest.len() && rest[m] == e;
                assert(elements[m] == e);
            }
        }
        if elements.contains(e) && !ids.contains(e.id) {
            let i = choose|i: int| 0 <= i < elements.len() && elements[i] == e;
            if i < elements.len() - 1 {
                assert(rest[i] == e);
                assert(kr.contains(e));
                let m = choose|m: int| 0 <= m < kr.len() && kr[m] == e;
                if !ids.contains(last.id) {
                    assert(kr.push(last)[m] == e);
                }
            } else {
                assert(k == kr.push(e));
                assert(k[kr.len() as int] == e);
            }
        }
    }
}

/// Removing any other element, with its subtree, keeps an element that has
/// no parent: the root of a design is never removed with another element.
pub proof fn lemma_removal_keeps_parentless(elements: Seq<UiElement>, id: u128, e: UiElement)
    requires
        elements.contains(e),
        e.id != id,
        parentless(elements, e.id),
    ensures
        Project::kept(elements, subtree(elements, id, elements.len() as nat)).contains(e),
        parentless(Project::kept(elements, subtree(elements, id, elements.len() as nat)), e.id),
{
    let marked = subtree(elements, id, elements.len() as nat);
    lemma_subtree_excludes_parentless(elements, id, e.id, elements.len() as nat);
    lemma_kept_keeps(elements, marked, e);
    let k = Project::kept(elements, marked);
    assert forall|i: int| 0 <= i < k.len() && #[trigger] k[i].id == e.id implies k[i].parent is None by {
        lemma_kept_keeps(elements, marked, k[i]);
        assert(k.contains(k[i]));
        let j = choose|j: int| 0 <= j < elements.len() && elements[j] == k[i];
        assert(elements[j].id == e.id);
    }
}

pub proof fn lemma_subtree_stable(elements: Seq<UiElement>, id: u128, k: nat, m: nat)
    requires
        subtree(elements, id, k + 1) == subtree(elements, id, k),
        k <= m,
    ensures
        subtree(elements, id, m) == subtree(elements, id, k),
    decreases m - k,
{
    if m > k {
        lemma_subtree_stable(elements, id, k, (m - 1) as nat);
        assert(subtree(elements, id, m) == grown(elements, subtree(elements, id, (m - 1) as nat)));
    }
}

impl Project {
    /// Whether `after` keeps the name, screen size, root and palette of the
    /// design: everything but its elements.
    pub open spec fn same_settings(self, after: Project) -> bool {
        &&& after.name == self.name
        &&& after.screen_w == self.screen_w
        &&& after.screen_h == self.screen_h
        &&& after.root_id == self.root_id
        &&& after.color_palette == self.color_palette
    }
}

impl Project {
    /// The first element with the id, if any.
    pub open spec fn lookup(self, id: u128) -> Option<UiElement> {
        match first_index(ids_of(self.elements@), id) {
            Some(i) => Some(self.elements@[i]),
            None => None,
        }
    }

    /// The index of the first element with the id, if any.
    pub fn element_index(&self, id: u128) -> (r: Option<usize>)
        ensures
            match r {
                Some(i) => first_index(ids_of(self.elements@), id) == Some(i as int),
                None => first_index(ids_of(self.elements@), id) is None,
            },
    {
        let mut i: usize = 0;
        while i < self.elements.len()
            invariant
                i <= self.elements@.len(),
                forall|j: int| 0 <= j < i ==> ids_of(self.elements@)[j] != id,
            decreases self.elements@.len() - i,
        {
            if self.elements[i].id == id {
                proof { lemma_first_index(ids_of(self.elements@), id, i as int); }
                return Some(i);
            }
            i = i + 1;
        }
        None
    }

    /// The first element with the id, if any.
    pub fn element(&self, id: u128) -> (r: Option<&UiElement>)
        ensures
            r is Some == self.lookup(id) is Some,
            r matches Some(e) ==> *e == self.lookup(id)->0,
    {
        match self.element_index(id) {
            Some(i) => Some(&self.elements[i]),
            None => None,
        }
    }

    /// The ids of the elements whose parent is `parent`, in drawing order.
    pub fn children_ids(&self, parent: u128) -> (r: Vec<u128>)
        ensures
            r@ == children(self.elements@, parent),
    {
        let mut r: Vec<u128> = Vec::new();
        let mut i: usize = 0;
        while i < self.elements.len()
            invariant
                i <= self.elements@.len(),
                r@ == children(self.elements@.subrange(0, i as int), parent),
            decreases self.elements@.len() - i,
        {
            assert(self.elements@.subrange(0, i + 1).drop_last() =~= self.elements@.subrange(0, i as int));
            if self.elements[i].parent == Some(parent) {
                r.push(self.elements[i].id);
            }
            i = i + 1;
        }
        assert(self.elements@.subrange(0, self.elements@.len() as int) =~= self.elements@);
        r
    }

    /// The elements whose parent is `parent`, in drawing order.
    pub fn children_of(&self, parent: u128) -> (r: Vec<&UiElement>)
        ensures
            r@.map_values(|e: &UiElement| e.id) == children(self.elements@, parent),
            forall|j: int| 0 <= j < r@.len() ==> #[trigger] r@[j].parent == Some(parent)
                && self.elements@.contains(*r@[j]),
    {
        let mut r: Vec<&UiElement> = Vec::new();
        let mut i: usize = 0;
        while i < self.elements.len()
            invariant
                i <= self.elements@.len(),
                r@.map_values(|e: &UiElement| e.id) == children(self.elements@.subrange(0, i as int), parent),
                forall|j: int| 0 <= j < r@.len() ==> #[trigger] r@[j].parent == Some(parent)
                    && self.elements@.contains(*r@[j]),
            decreases self.elements@.len() - i,
        {
            assert(self.elements@.subrange(0, i + 1).drop_last() =~= self.elements@.subrange(0, i as int));
            let e = &self.elements[i];
            if e.parent == Some(parent) {
                let ghost before = r@;
                r.push(e);
                assert(r@.map_values(|e: &UiElement| e.id) =~= before.map_values(|e: &UiElement| e.id).push(e.id));
                assert(self.elements@.contains(*e)) by { assert(self.elements@[i as int] == *e); }
            }
            i = i + 1;
        }
        assert(self.elements@.subrange(0, self.elements@.len() as int) =~= self.elements@);
        r
    }

    /// Appends `el` as the last child of `parent` and returns its id.
    pub fn add_element(&mut self, el: UiElement, parent: u128) -> (r: u128)
        ensures
            r == el.id,
            final(self).elements@ == old(self).elements@.push(UiElement { parent: Some(parent), ..el }),
            final(self).name == old(self).name,
            final(self).screen_w == old(self).screen_w,
            final(self).screen_h == old(self).screen_h,
            final(self).root_id == old(self).root_id,
            final(self).color_palette == old(self).color_palette,
    {
        let mut el = el;
        el.parent = Some(parent);
        let id = el.id;
        self.elements.push(el);
        id
    }
    /// The first element with the id, to change, if any.
    pub fn element_mut(&mut self, id: u128) -> (r: Option<&mut UiElement>)
        ensures
            r is Some == old(self).lookup(id) is Some,
            r matches Some(e) ==> *e == old(self).lookup(id)->0
                && final(self).elements@ == old(self).elements@.update(
                    first_index(ids_of(old(self).elements@), id)->0, *final(e))
                && final(self).name == old(self).name
                && final(self).screen_w == old(self).screen_w
                && final(self).screen_h == old(self).screen_h
                && final(self).root_id == old(self).root_id
                && final(self).color_palette == old(self).color_palette,
            r is None ==> *final(self) == *old(self),
    {
        match self.element_index(id) {
            Some(i) => Some(&mut self.elements[i]),
            None => None,
        }
    }

    /// The swap of two elements that moves the element `id` by `direction`
    /// places among its siblings (the elements with its parent), clamped to
    /// the first and last sibling: the indices of the element and of the
    /// sibling at its new place. None when the element is missing, has no
    /// parent, or would not move.
    pub open spec fn sibling_swap(self, id: u128, direction: int) -> Option<(int, int)> {
        match self.lookup(id) {
            None => None,
            Some(e) => match e.parent {
                None => None,
                Some(p) => {
                    let sibs = children(self.elements@, p);
                    match first_index(sibs, id) {
                        None => None,
                        Some(pos) => {
                            let moved = pos + direction;
                            let np = if moved < 0 { 0 } else if moved > sibs.len() - 1 { sibs.len() - 1 } else { moved };
                            if np == pos {
                                None
                            } else {
                                match (first_index(ids_of(self.elements@), id), first_index(ids_of(self.elements@), sibs[np])) {
                                    (Some(a), Some(b)) => Some((a, b)),
                                    _ => None,
                                }
                            }
                        },
                    }
                },
            },
        }
    }

    /// Moves the element `id` by `direction` places among its siblings in
    /// drawing order (its z-order), by swapping it with the sibling at its
    /// new place; tells whether it moved.
    pub fn reorder_sibling(&mut self, id: u128, direction: i32) -> (r: bool)
        requires
            old(self).elements@.len() <= i32::MAX,
        ensures
            r == old(self).sibling_swap(id, direction as int) is Some,
            final(self).elements@ == match old(self).sibling_swap(id, direction as int) {
                Some((a, b)) => old(self).elements@.update(a, old(self).elements@[b]).update(b, old(self).elements@[a]),
                None => old(self).elements@,
            },
            final(self).name == old(self).name,
            final(self).screen_w == old(self).screen_w,
            final(self).screen_h == old(self).screen_h,
            final(self).root_id == old(self).root_id,
            final(self).color_palette == old(self).color_palette,
    {
        let parent = match self.element(id) {
            Some(e) => match e.parent {
                Some(p) => p,
                None => return false,
            },
            None => return false,
        };
        let siblings = self.children_ids(parent);
        let pos = match position_of(&siblings, id) {
            Some(p) => p,
            None => return false,
        };
        proof { children_len_bound(self.elements@, parent); }
        let moved: i64 = pos as i64 + direction as i64;
        let last: i64 = siblings.len() as i64 - 1;
        let new_pos: i64 = if moved < 0 { 0 } else if moved > last { last } else { moved };
        if new_pos == pos as i64 {
            return false;
        }
        let target = siblings[new_pos as usize];
        let ids_a = self.element_index(id);
        let ids_b = self.element_index(target);
        match (ids_a, ids_b) {
            (Some(a), Some(b)) => {
                swap_items(&mut self.elements, a, b);
                true
            },
            _ => false,
        }
    }

    /// Whether the element `id` can move before the element `before_id`:
    /// they differ, and both exist with the same parent.
    pub open spec fn can_move_before(self, id: u128, before_id: u128) -> bool {
        &&& id != before_id
        &&& self.lookup(id) matches Some(e)
        &&& e.parent matches Some(p)
        &&& self.lookup(before_id) matches Some(b)
        &&& b.parent == Some(p)
    }

    /// The elements after moving the element `id` before `before_id`: it is
    /// taken out, then put back just before the first element `before_id`
    /// of what remains (or at the end).
    pub open spec fn moved_before(self, id: u128, before_id: u128) -> Seq<UiElement> {
        let s = self.elements@;
        let i = first_index(ids_of(s), id)->0;
        let rest = s.remove(i);
        let k = match first_index(ids_of(rest), before_id) {
            Some(k) => k,
            None => rest.len() as int,
        };
        rest.insert(k, s[i])
    }

    /// Moves the element `id` to just before the element `before_id` in
    /// drawing order, when both have the same parent; tells whether it moved.
    pub fn move_before_sibling(&mut self, id: u128, before_id: u128) -> (r: bool)
        ensures
            r == old(self).can_move_before(id, before_id),
            final(self).elements@ == if r { old(self).moved_before(id, before_id) } else { old(self).elements@ },
            final(self).name == old(self).name,
            final(self).screen_w == old(self).screen_w,
            final(self).screen_h == old(self).screen_h,
            final(self).root_id == old(self).root_id,
            final(self).color_palette == old(self).color_palette,
    {
        if id == before_id {
            return false;
        }
        let parent = match self.element(id) {
            Some(e) => match e.parent {
                Some(p) => p,
                None => return false,
            },
            None => return false,
        };
        let before_parent = match self.element(before_id) {
            Some(b) => b.parent,
            None => None,
        };
        if before_parent != Some(parent) {
            return false;
        }
        let idx = match self.element_index(id) {
            Some(i) => i,
            None => return false,
        };
        let el = self.elements.remove(idx);
        let insert_at = match self.element_index(before_id) {
            Some(k) => k,
            None => self.elements.len(),
        };
        self.elements.insert(insert_at, el);
        true
    }
}

/// Moving an element before a sibling keeps the same elements, only in
/// another order.
pub proof fn lemma_move_before_permutes(p: Project, id: u128, before_id: u128)
    requires
        p.can_move_before(id, before_id),
    ensures
        p.moved_before(id, before_id).to_multiset() == p.elements@.to_multiset(),
        p.moved_before(id, before_id).len() == p.elements@.len(),
{
    broadcast use vstd::seq_lib::group_to_multiset_ensures;
    broadcast use vstd::multiset::group_multiset_axioms;

    let s = p.elements@;
    let i = first_index(ids_of(s), id)->0;
    assert(is_first(ids_of(s), id, i));
    let rest = s.remove(i);
    let k = match first_index(ids_of(rest), before_id) {
        Some(k) => k,
        None => rest.len() as int,
    };
    if first_index(ids_of(rest), before_id) is Some {
        assert(is_first(ids_of(rest), before_id, k));
    }
    assert(rest.insert(k, s[i]).to_multiset() =~= s.to_multiset());
}

/// Moving an element among its siblings keeps the same elements, only in
/// another order.
pub proof fn lemma_sibling_swap_permutes(p: Project, id: u128, direction: int)
    requires
        p.sibling_swap(id, direction) is Some,
    ensures
        ({
            let (a, b) = p.sibling_swap(id, direction)->0;
            let s = p.elements@;
            s.update(a, s[b]).update(b, s[a]).to_multiset() == s.to_multiset()
        }),
{
    broadcast use vstd::seq_lib::group_to_multiset_ensures;
    broadcast use vstd::multiset::group_multiset_axioms;

    let (a, b) = p.sibling_swap(id, direction)->0;
    let s = p.elements@;
    assert(s.update(a, s[b]).update(b, s[a]).to_multiset() =~= s.to_multiset());
}

/// There are no more children than elements.
pub proof fn children_len_bound(elements: Seq<UiElement>, parent: u128)
    ensures
        children(elements, parent).len() <= elements.len(),
    decreases elements.len(),
{
    if elements.len() > 0 {
        children_len_bound(elements.drop_last(), parent);
    }
}

/// Swaps the items at `a` and `b`.
pub fn swap_items<T>(v: &mut Vec<T>, a: usize, b: usize)
    requires
        a < old(v)@.len(),
        b < old(v)@.len(),
    ensures
        final(v)@ == old(v)@.update(a as int, old(v)@[b as int]).update(b as int, old(v)@[a as int]),
{
    if a == b {
        assert(v@ =~= old(v)@.update(a as int, old(v)@[b as int]).update(b as int, old(v)@[a as int]));
        return;
    }
    let (lo, hi) = if a < b { (a, b) } else { (b, a) };
    let x_hi = v.remove(hi);
    let x_lo = v.remove(lo);
    v.insert(lo, x_hi);
    v.insert(hi, x_lo);
    assert(v@ =~= old(v)@.update(a as int, old(v)@[b as int]).update(b as int, old(v)@[a as int]));
}

impl Project {
    /// Whether `e` is the close button that `add_close_button` appends: named
    /// `name`, at `x`, with the other settings of a new close button.
    pub open spec fn is_close_button(e: UiElement, name: Seq<char>, x: Num) -> bool {
        &&& e.name@ == name
        &&& e.kind == ElementKind::Button
        &&& e.w.is_fixed(0x41c00000, "24"@)
        &&& e.h.is_fixed(0x41c00000, "24"@)
        &&& e.x == NumExpr::Fixed(x)
        &&& e.y.is_fixed(0x40800000, "4"@)
        &&& e.text matches StrExpr::Literal(t) && t@ == "x"@
        &&& e.font_size == 18
        &&& e.lua_do_click@ == "self:GetParent():Remove()"@
        &&& e.button_hover_enabled
        &&& e.button_pressed_enabled
        &&& UiElement::has_new_settings(UiElement { parent: None, ..e }, ElementKind::Button, name)
    }

    /// Appends a close button `CloseBtn_<n>` (n the number of elements
    /// before) at `x` as the last child of `parent_id`, and returns its id.
    pub fn add_close_button(&mut self, parent_id: u128, x: Num) -> (r: Option<u128>)
        ensures
            r is Some,
            final(self).elements@.len() == old(self).elements@.len() + 1,
            final(self).elements@.drop_last() == old(self).elements@,
            ({
                let e = final(self).elements@.last();
                &&& Some(e.id) == r
                &&& is_random_uuid(e.id)
                &&& e.parent == Some(parent_id)
                &&& Project::is_close_button(e, "CloseBtn_"@ + decimal(old(self).elements@.len() as nat), x)
            }),
            final(self).name == old(self).name,
            final(self).screen_w == old(self).screen_w,
            final(self).screen_h == old(self).screen_h,
            final(self).root_id == old(self).root_id,
            final(self).color_palette == old(self).color_palette,
    {
        let n = self.elements.len();
        let mut name = String::from_str("CloseBtn_");
        push_decimal(&mut name, n as u128);
        let el = UiElement::new_close_button(name.as_str(), x);
        let id = self.add_element(el, parent_id);
        assert(self.elements@.drop_last() =~= old(self).elements@);
        Some(id)
    }

    /// The elements that are not in `ids`, in order.
    pub open spec fn kept(elements: Seq<UiElement>, ids: Set<u128>) -> Seq<UiElement>
        decreases elements.len(),
    {
        if elements.len() == 0 {
            Seq::empty()
        } else {
            let rest = Project::kept(elements.drop_last(), ids);
            if ids.contains(elements.last().id) {
                rest
            } else {
                rest.push(elements.last())
            }
        }
    }

    /// Removes the element `id` with all its descendants, unless it is the
    /// root; tells whether anything was removed.
    pub fn remove_element(&mut self, id: u128) -> (r: bool)
        ensures
            id == old(self).root_id ==> !r && *final(self) == *old(self),
            id != old(self).root_id ==> final(self).elements@ == Project::kept(
                old(self).elements@,
                subtree(old(self).elements@, id, old(self).elements@.len() as nat),
            ),
            r == (final(self).elements@.len() < old(self).elements@.len()),
            final(self).name == old(self).name,
            final(self).screen_w == old(self).screen_w,
            final(self).screen_h == old(self).screen_h,
            final(self).root_id == old(self).root_id,
            final(self).color_palette == old(self).color_palette,
    {
        if id == self.root_id {
            return false;
        }
        let to_remove = collect_descendants(self, id);
        let before = self.elements.len();
        let ghost marked = subtree(self.elements@, id, self.elements@.len() as nat);
        let ghost old_elements = self.elements@;
        let mut kept: Vec<UiElement> = Vec::new();
        let mut elements = Vec::new();
        std::mem::swap(&mut elements, &mut self.elements);
        let ghost mut i: int = 0;
        while elements.len() > 0
            invariant
                0 <= i <= old_elements.len(),
                elements@ == old_elements.subrange(i, old_elements.len() as int),
                kept@ == Project::kept(old_elements.subrange(0, i), marked),
                forall|x: u128| to_remove@.contains(x) <==> marked.contains(x),
            decreases elements@.len(),
        {
            let e = elements.remove(0);
            proof {
                assert(old_elements.subrange(0, i + 1).drop_last() =~= old_elements.subrange(0, i));
                assert(old_elements[i] == e);
            }
            if !contains_id(&to_remove, e.id) {
                kept.push(e);
            }
            proof { i = i + 1; }
            assert(elements@ =~= old_elements.subrange(i, old_elements.len() as int));
        }
        assert(old_elements.subrange(0, i) =~= old_elements);
        self.elements = kept;
        let r = self.elements.len() < before;
        r
    }
}

/// Whether the element's parent is among the ids.
pub open spec fn parent_in(e: UiElement, ids: Set<u128>) -> bool {
    e.parent matches Some(p) && ids.contains(p)
}

/// Whether one of the first `i` elements has the id `x` and its parent
/// among `ids`.
pub open spec fn child_among(elements: Seq<UiElement>, ids: Set<u128>, x: u128, i: int) -> bool {
    exists|j: int| 0 <= j < i && #[trigger] elements[j].id == x && parent_in(elements[j], ids)
}

proof fn lemma_child_among_step(elements: Seq<UiElement>, ids: Set<u128>, i: int)
    requires
        0 <= i < elements.len(),
    ensures
        forall|x: u128| child_among(elements, ids, x, i + 1) <==> (child_among(elements, ids, x, i)
            || (x == elements[i].id && parent_in(elements[i], ids))),
{
    assert forall|x: u128| child_among(elements, ids, x, i + 1) <==> (child_among(elements, ids, x, i)
        || (x == elements[i].id && parent_in(elements[i], ids))) by {
        if child_among(elements, ids, x, i + 1) {
            let j = choose|j: int| 0 <= j < i + 1 && #[trigger] elements[j].id == x && parent_in(elements[j], ids);
            if j < i {
                assert(child_among(elements, ids, x, i));
            }
        }
        if child_among(elements, ids, x, i) {
            let j = choose|j: int| 0 <= j < i && #[trigger] elements[j].id == x && parent_in(elements[j], ids);
            assert(0 <= j < i + 1 && elements[j].id == x && parent_in(elements[j], ids));
        }
        if x == elements[i].id && parent_in(elements[i], ids) {
            assert(0 <= i < i + 1 && elements[i].id == x && parent_in(elements[i], ids));
        }
    }
}

proof fn lemma_grown_is_child_among(elements: Seq<UiElement>, ids: Set<u128>)
    ensures
        forall|x: u128| grown(elements, ids).contains(x) <==> (ids.contains(x)
            || child_among(elements, ids, x, elements.len() as int)),
{
    assert forall|x: u128| grown(elements, ids).contains(x) <==> (ids.contains(x)
        || child_among(elements, ids, x, elements.len() as int)) by {
        if child_among(elements, ids, x, elements.len() as int) {
            let j = choose|j: int| 0 <= j < elements.len() && #[trigger] elements[j].id == x && parent_in(elements[j], ids);
            assert(0 <= j < elements.len() && elements[j].id == x && (elements[j].parent matches Some(p) && ids.contains(p)));
        }
        if grown(elements, ids).contains(x) && !ids.contains(x) {
            let j = choose|j: int| 0 <= j < elements.len() && elements[j].id == x
                && (elements[j].parent matches Some(p) && ids.contains(p));
            assert(parent_in(elements[j], ids));
        }
    }
}

/// The ids of the element `id` and of its descendants (the elements reached
/// by going from parents to children as many times as there are elements).
pub fn collect_descendants(project: &Project, id: u128) -> (r: Vec<u128>)
    ensures
        forall|x: u128| r@.contains(x) <==> subtree(project.elements@, id, project.elements@.len() as nat).contains(x),
{
    let elements = &project.elements;
    let n = elements.len();
    let mut marked: Vec<u128> = vec![id];
    assert(marked@.contains(id)) by { assert(marked@[0] == id); }
    let mut round: usize = 0;
    while round < n
        invariant
            n == elements@.len(),
            elements@ == project.elements@,
            round <= n,
            forall|x: u128| marked@.contains(x) <==> subtree(elements@, id, round as nat).contains(x),
        decreases n - round,
    {
        let ghost prev = subtree(elements@, id, round as nat);
        let mut next: Vec<u128> = Vec::new();
        let mut k: usize = 0;
        while k < marked.len()
            invariant
                k <= marked@.len(),
                next@ == marked@.subrange(0, k as int),
            decreases marked@.len() - k,
        {
            next.push(marked[k]);
            assert(next@ =~= marked@.subrange(0, k + 1));
            k = k + 1;
        }
        assert(next@ =~= marked@);
        let mut grew = false;
        let mut i: usize = 0;
        while i < n
            invariant
                n == elements@.len(),
                i <= n,
                forall|x: u128| marked@.contains(x) <==> prev.contains(x),
                forall|x: u128| next@.contains(x) <==> (prev.contains(x) || child_among(elements@, prev, x, i as int)),
                !grew ==> forall|x: u128| next@.contains(x) ==> prev.contains(x),
            decreases n - i,
        {
            proof { lemma_child_among_step(elements@, prev, i as int); }
            let ghost old_next = next@;
            assert(forall|x: u128| old_next.contains(x) <==> (prev.contains(x) || child_among(elements@, prev, x, i as int)));
            let e = &elements[i];
            let mut under_marked = false;
            if let Some(p) = e.parent {
                if contains_id(&marked, p) {
                    under_marked = true;
                }
            }
            assert(under_marked == parent_in(elements@[i as int], prev));
            if under_marked && !contains_id(&next, e.id) {
                let ghost before = next@;
                next.push(e.id);
                grew = true;
                assert forall|x: u128| next@.contains(x) <==> (before.contains(x) || x == e.id) by {
                    if next@.contains(x) {
                        let j = choose|j: int| 0 <= j < next@.len() && next@[j] == x;
                        if j < before.len() {
                            assert(before[j] == x);
                        }
                    }
                    if before.contains(x) {
                        let j = choose|j: int| 0 <= j < before.len() && before[j] == x;
                        assert(next@[j] == x);
                    }
                    if x == e.id {
                        assert(next@[before.len() as int] == x);
                    }
                }
            }
            assert(parent_in(elements@[i as int], prev) ==> next@.contains(elements@[i as int].id));
            assert(forall|x: u128| next@.contains(x) ==> (old_next.contains(x) || (x == elements@[i as int].id && parent_in(elements@[i as int], prev))));
            assert(forall|x: u128| old_next.contains(x) ==> next@.contains(x));
            let ghost i1: int = i + 1;
            assert forall|x: u128| #[trigger] next@.contains(x) <==> (prev.contains(x) || child_among(elements@, prev, x, i1)) by {
                assert(old_next.contains(x) <==> (prev.contains(x) || child_among(elements@, prev, x, i as int)));
                assert(child_among(elements@, prev, x, i1) <==> (child_among(elements@, prev, x, i as int)
                    || (x == elements@[i as int].id && parent_in(elements@[i as int], prev))));
            }
            i = i + 1;
        }
        proof {
            lemma_grown_is_child_among(elements@, prev);
            let r1: nat = (round + 1) as nat;
            assert(subtree(elements@, id, r1) == grown(elements@, prev));
            assert forall|x: u128| #[trigger] next@.contains(x) <==> subtree(elements@, id, r1).contains(x) by {
                assert(next@.contains(x) <==> (prev.contains(x) || child_among(elements@, prev, x, i as int)));
                assert(grown(elements@, prev).contains(x) <==> (prev.contains(x)
                    || child_among(elements@, prev, x, elements@.len() as int)));
            }
        }
        marked = next;
        round = round + 1;
        if !grew {
            proof {
                let k: nat = (round - 1) as nat;
                assert(k + 1 == round as nat);
                assert forall|x: u128| subtree(elements@, id, k + 1).contains(x) <==> subtree(elements@, id, k).contains(x) by {
                    assert(marked@.contains(x) <==> subtree(elements@, id, round as nat).contains(x));
                    assert(marked@.contains(x) ==> prev.contains(x));
                }
                assert(subtree(elements@, id, k + 1) =~= subtree(elements@, id, k));
                lemma_subtree_stable(elements@, id, k, n as nat);
                assert forall|x: u128| #[trigger] marked@.contains(x) <==> subtree(project.elements@, id, project.elements@.len() as nat).contains(x) by {
                    assert(marked@.contains(x) <==> subtree(elements@, id, round as nat).contains(x));
                    assert(subtree(elements@, id, round as nat) == subtree(elements@, id, k));
                    assert(subtree(elements@, id, n as nat) == subtree(elements@, id, k));
                    assert(project.elements@.len() as nat == n as nat);
                }
            }
            return marked;
        }
    }
    marked
}

impl Project {
    /// Whether `copy` is the duplicate of `el` that `duplicate_element` adds:
    /// a fresh id, the name with `_copy` appended, at `x`, with fresh ids for
    /// its layers, and everything else as in `el`.
    pub open spec fn is_duplicate(copy: UiElement, el: UiElement, x: Num) -> bool {
        &&& is_random_uuid(copy.id)
        &&& copy.name@ == el.name@ + "_copy"@
        &&& copy.x == NumExpr::Fixed(x)
        &&& copy@.fields == UiElement { id: copy.id, name: copy.name, x: copy.x, ..el@.fields }
        &&& copy.text_layers@.len() == el.text_layers@.len()
        &&& forall|j: int| 0 <= j < el.text_layers@.len() ==> is_random_uuid(#[trigger] copy.text_layers@[j].id)
            && copy.text_layers@[j] == (TextLayer { id: copy.text_layers@[j].id, ..el.text_layers@[j] })
        &&& copy.image_layers@.len() == el.image_layers@.len()
        &&& forall|j: int| 0 <= j < el.image_layers@.len() ==> is_random_uuid(#[trigger] copy.image_layers@[j].id)
            && copy.image_layers@[j] == (ImageLayer { id: copy.image_layers@[j].id, ..el.image_layers@[j] })
    }

    /// Adds a copy of the element `id` after the last element, under the
    /// same parent, and returns the copy's id; the editor places the copy 10
    /// pixels right of the element copied and passes that `x`. None when there is
    /// no such element or it has no parent.
    #[verifier::rlimit(60)]
    pub fn duplicate_element(&mut self, id: u128, x: Num) -> (r: Option<u128>)
        ensures
            r is Some <==> (old(self).lookup(id) matches Some(e) && e.parent is Some),
            r is None ==> *final(self) == *old(self),
            r matches Some(nid) ==> {
                let copy = final(self).elements@.last();
                &&& final(self).elements@.drop_last() == old(self).elements@
                &&& copy.id == nid
                &&& Project::is_duplicate(copy, old(self).lookup(id)->0, x)
            },
            final(self).name == old(self).name,
            final(self).screen_w == old(self).screen_w,
            final(self).screen_h == old(self).screen_h,
            final(self).root_id == old(self).root_id,
            final(self).color_palette == old(self).color_palette,
    {
        let copy = match self.element(id) {
            Some(e) => {
                if e.parent.is_none() {
                    return None;
                }
                duplicate_of(e, x)
            },
            None => return None,
        };
        let parent = match copy.parent {
            Some(p) => p,
            None => return None,
        };
        let nid = self.add_element(copy, parent);
        assert(self.elements@.drop_last() =~= old(self).elements@);
        Some(nid)
    }
}

impl Default for Project {
    /// A new design named `Новый интерфейс`, previewed at 1920 by 1080, whose
    /// only element is its root: an editable panel `RootPanel` at 0, 0 of
    /// the screen's size that paints nothing, with the default palette.
    fn default() -> (r: Self)
        ensures
            r.name@ == "Новый интерфейс"@,
            r.screen_w == 1920,
            r.screen_h == 1080,
            r.elements@.len() == 1,
            r.root_id == r.elements@[0].id,
            Project::is_new_root(r.elements@[0]),
            r.color_palette@.map_values(|c: [u8; 4]| c@) == palette(),
    {
        let mut root = UiElement::new(ElementKind::EditablePanel, "RootPanel");
        root.x = NumExpr::Fixed(Num::new(0, "0"));
        root.y = NumExpr::Fixed(Num::new(0, "0"));
        root.w = NumExpr::ScrW;
        root.h = NumExpr::ScrH;
        root.corner_radius = Measure::new(0, "0", false);
        root.paint_background = false;
        root.text = StrExpr::Literal(String::new());
        let root_id = root.id;
        let elements = vec![root];
        Project {
            name: String::from_str("Новый интерфейс"),
            screen_w: 1920,
            screen_h: 1080,
            root_id,
            elements,
            color_palette: default_color_palette(),
        }
    }
}

impl Project {
    /// Whether `e` is the root of a new design: a new editable panel
    /// `RootPanel` at 0, 0, of the screen's size, that paints nothing.
    pub open spec fn is_new_root(e: UiElement) -> bool {
        &&& is_random_uuid(e.id)
        &&& e.x.is_fixed(0, "0"@)
        &&& e.y.is_fixed(0, "0"@)
        &&& e.w == NumExpr::ScrW
        &&& e.h == NumExpr::ScrH
        &&& e.text.is_empty_literal()
        &&& e.font_size == 16
        &&& e.lua_do_click@.len() == 0
        &&& !e.button_hover_enabled
        &&& !e.button_pressed_enabled
        &&& UiElement::has_new_settings(e, ElementKind::EditablePanel, "RootPanel"@)
        &&& !e.paint_background
    }
}

/// Copies of the layers with fresh ids.
fn fresh_text_layers(layers: &Vec<TextLayer>) -> (r: Vec<TextLayer>)
    ensures
        r@.len() == layers@.len(),
        forall|j: int| 0 <= j < layers@.len() ==> is_random_uuid(#[trigger] r@[j].id)
            && r@[j] == (TextLayer { id: r@[j].id, ..layers@[j] }),
{
    let mut out: Vec<TextLayer> = Vec::new();
    let mut i: usize = 0;
    while i < layers.len()
        invariant
            i <= layers@.len(),
            out@.len() == i,
            forall|j: int| 0 <= j < i ==> is_random_uuid(#[trigger] out@[j].id)
                && out@[j] == (TextLayer { id: out@[j].id, ..layers@[j] }),
        decreases layers@.len() - i,
    {
        let mut layer = layers[i].clone();
        layer.id = new_id();
        out.push(layer);
        i = i + 1;
    }
    out
}

/// Copies of the layers with fresh ids.
fn fresh_image_layers(layers: &Vec<ImageLayer>) -> (r: Vec<ImageLayer>)
    ensures
        r@.len() == layers@.len(),
        forall|j: int| 0 <= j < layers@.len() ==> is_random_uuid(#[trigger] r@[j].id)
            && r@[j] == (ImageLayer { id: r@[j].id, ..layers@[j] }),
{
    let mut out: Vec<ImageLayer> = Vec::new();
    let mut i: usize = 0;
    while i < layers.len()
        invariant
            i <= layers@.len(),
            out@.len() == i,
            forall|j: int| 0 <= j < i ==> is_random_uuid(#[trigger] out@[j].id)
                && out@[j] == (ImageLayer { id: out@[j].id, ..layers@[j] }),
        decreases layers@.len() - i,
    {
        let mut layer = layers[i].clone();
        layer.id = new_id();
        out.push(layer);
        i = i + 1;
    }
    out
}

/// The duplicate of `el` at `x` (see `Project::is_duplicate`), under the
/// same parent.
#[verifier::rlimit(60)]
fn duplicate_of(el: &UiElement, x: Num) -> (copy: UiElement)
    ensures
        Project::is_duplicate(copy, *el, x),
        copy.parent == el.parent,
{
    let text_layers = fresh_text_layers(&el.text_layers);
    let image_layers = fresh_image_layers(&el.image_layers);
    let name = el.name.clone().concat("_copy");
    let mut copy = el.clone();
    copy.id = new_id();
    copy.name = name;
    copy.x = NumExpr::Fixed(x);
    copy.text_layers = text_layers;
    copy.image_layers = image_layers;
    copy
}

} // verus!
