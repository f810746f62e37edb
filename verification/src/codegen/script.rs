//! The whole GLua script of a design: its panels in tree order, each under
//! a Lua local of its own.

use vstd::prelude::*;
use vstd::string::*;
use crate::codegen::setup::{
    element_setup, emit_element_setup, lemma_dock_in_setup, names_view, parent_var, parent_var_name,
};
use crate::model::element::DockMode;
use crate::paths::ascii_uppercase;
use crate::ui::hierarchy::{contains_text, lemma_contains_extended, lemma_contains_prepended};
use crate::ui::properties::dock_name;
use crate::model::element::UiElement;
use crate::model::project::{Project, children, first_index, ids_of, lemma_first_index};
use crate::text::{
    decimal, is_ascii_alnum, is_lua_local, lemma_decimal_digits, lemma_decimal_injective, lemma_decimal_len,
    lemma_sanitize_var_local, lemma_underscore_not_keyword, push_decimal, sanitize_var, sanitize_var_name,
};
use vstd::relations::injective_on;
use vstd::set_lib::{lemma_int_range, lemma_len_subset, lemma_map_size, set_int_range};

verus! {

broadcast use crate::text::group_text;

/// The ids of the tree under `id` in depth-first order, each parent before
/// its children and the children in drawing order, going down at most
/// `fuel` levels.
pub open spec fn preorder(elements: Seq<UiElement>, id: u128, fuel: nat) -> Seq<u128>
    decreases fuel, 0nat, 0nat,
{
    seq![id] + if fuel == 0 {
        Seq::empty()
    } else {
        preorder_all(elements, children(elements, id), (fuel - 1) as nat)
    }
}

/// The trees under each of `ids` in depth-first order, one after another.
pub open spec fn preorder_all(elements: Seq<UiElement>, ids: Seq<u128>, fuel: nat) -> Seq<u128>
    decreases fuel, 1nat, ids.len(),
{
    if ids.len() == 0 {
        Seq::empty()
    } else {
        preorder_all(elements, ids.drop_last(), fuel) + preorder(elements, ids.last(), fuel)
    }
}

fn visit(project: &Project, id: u128, out: &mut Vec<u128>, fuel: usize)
    ensures
        final(out)@ == old(out)@ + preorder(project.elements@, id, fuel as nat),
    decreases fuel,
{
    out.push(id);
    if fuel == 0 {
        assert(out@ =~= old(out)@ + preorder(project.elements@, id, fuel as nat));
        return;
    }
    let kids = project.children_ids(id);
    let ghost start = out@;
    let mut i: usize = 0;
    while i < kids.len()
        invariant
            fuel > 0,
            kids@ == children(project.elements@, id),
            i <= kids@.len(),
            start == old(out)@.push(id),
            out@ == start + preorder_all(project.elements@, kids@.subrange(0, i as int), (fuel - 1) as nat),
        decreases kids@.len() - i,
    {
        assert(kids@.subrange(0, i + 1).drop_last() =~= kids@.subrange(0, i as int));
        visit(project, kids[i], out, fuel - 1);
        i = i + 1;
    }
    assert(kids@.subrange(0, kids@.len() as int) =~= kids@);
    assert(out@ =~= old(out)@ + preorder(project.elements@, id, fuel as nat));
}

/// The ids of the tree under `root` in depth-first order, each parent
/// before its children and the children in drawing order. It goes down at
/// most as many levels as there are elements, which no tree of them
/// exceeds; only parents that form a cycle would.
pub fn topological_order(project: &Project, root: u128) -> (r: Vec<u128>)
    ensures
        r@ == preorder(project.elements@, root, project.elements@.len() as nat),
        r@.len() > 0 && r@[0] == root,
        parents_first(project.elements@, r@),
{
    let mut out: Vec<u128> = Vec::new();
    visit(project, root, &mut out, project.elements.len());
    assert(out@ =~= preorder(project.elements@, root, project.elements@.len() as nat));
    proof { lemma_preorder_parents_first(project.elements@, root, project.elements@.len() as nat); }
    out
}

/// Whether the `j`-th entry is a child of an earlier entry.
pub open spec fn parent_before(elements: Seq<UiElement>, ordered: Seq<u128>, j: int) -> bool {
    exists|i: int| 0 <= i < j && #[trigger] children(elements, ordered[i]).contains(ordered[j])
}

/// Whether each entry after the first is a child of an earlier entry.
pub open spec fn parents_first(elements: Seq<UiElement>, ordered: Seq<u128>) -> bool {
    forall|j: int| 0 < j < ordered.len() ==> #[trigger] parent_before(elements, ordered, j)
}

/// In the tree order each element comes after an element of which it is a
/// child: the first entry is the root of the tree, every other one has its
/// parent before it.
pub proof fn lemma_preorder_parents_first(elements: Seq<UiElement>, id: u128, fuel: nat)
    ensures
        parents_first(elements, preorder(elements, id, fuel)),
    decreases fuel, 0nat, 0nat,
{
    let pre = preorder(elements, id, fuel);
    if fuel > 0 {
        let kids = children(elements, id);
        let rest = preorder_all(elements, kids, (fuel - 1) as nat);
        lemma_preorder_all_parents_first(elements, kids, (fuel - 1) as nat);
        assert forall|j: int| 0 < j < pre.len() implies #[trigger] parent_before(elements, pre, j) by {
            assert(pre[j] == rest[j - 1]);
            if kids.contains(rest[j - 1]) {
                assert(pre[0] == id);
                assert(children(elements, pre[0]).contains(pre[j]));
            } else {
                assert(parent_before(elements, rest, j - 1));
                let i = choose|i: int| 0 <= i < j - 1 && #[trigger] children(elements, rest[i]).contains(rest[j - 1]);
                assert(pre[i + 1] == rest[i]);
                assert(children(elements, pre[i + 1]).contains(pre[j]));
            }
        }
    }
}

/// In the tree order of the subtrees under `ids`, each entry is one of `ids`
/// or comes after an element of which it is a child.
pub proof fn lemma_preorder_all_parents_first(elements: Seq<UiElement>, ids: Seq<u128>, fuel: nat)
    ensures
        forall|j: int| 0 <= j < preorder_all(elements, ids, fuel).len() ==> ids.contains(
            preorder_all(elements, ids, fuel)[j],
        ) || #[trigger] parent_before(elements, preorder_all(elements, ids, fuel), j),
    decreases fuel, 1nat, ids.len(),
{
    if ids.len() > 0 {
        let front = ids.drop_last();
        let a = preorder_all(elements, front, fuel);
        let b = preorder(elements, ids.last(), fuel);
        let all = preorder_all(elements, ids, fuel);
        lemma_preorder_all_parents_first(elements, front, fuel);
        lemma_preorder_parents_first(elements, ids.last(), fuel);
        assert forall|j: int| 0 <= j < all.len() implies ids.contains(all[j])
            || #[trigger] parent_before(elements, all, j) by {
            if j < a.len() {
                assert(all[j] == a[j]);
                if front.contains(a[j]) {
                    let m = choose|m: int| 0 <= m < front.len() && front[m] == a[j];
                    assert(ids[m] == a[j]);
                } else {
                    assert(parent_before(elements, a, j));
                    let i = choose|i: int| 0 <= i < j && #[trigger] children(elements, a[i]).contains(a[j]);
                    assert(all[i] == a[i]);
                    assert(children(elements, all[i]).contains(all[j]));
                }
            } else {
                let t = j - a.len();
                assert(all[j] == b[t]);
                if t == 0 {
                    assert(b[0] == ids.last());
                    assert(ids[ids.len() - 1] == all[j]);
                } else {
                    assert(parent_before(elements, b, t));
                    let i = choose|i: int| 0 <= i < t && #[trigger] children(elements, b[i]).contains(b[t]);
                    assert(all[i + a.len()] == b[i]);
                    assert(children(elements, all[i + a.len()]).contains(all[j]));
                }
            }
        }
    }
}

/// A Lua local name for an element whose plain name is `base`: the `k`-th
/// try is `base` itself for `k == 1`, else `base_<k>`.
pub open spec fn candidate(base: Seq<char>, k: nat) -> Seq<char> {
    if k <= 1 { base } else { base + "_"@ + decimal(k) }
}

/// The first try from the `k`-th on that is not among `used`, trying at
/// most `fuel` more.
pub open spec fn free_name(base: Seq<char>, used: Seq<Seq<char>>, k: nat, fuel: nat) -> Seq<char>
    decreases fuel,
{
    if fuel == 0 || !used.contains(candidate(base, k)) {
        candidate(base, k)
    } else {
        free_name(base, used, k + 1, (fuel - 1) as nat)
    }
}

/// The first element with the id.
pub open spec fn element_with(elements: Seq<UiElement>, id: u128) -> UiElement {
    elements[first_index(ids_of(elements), id)->0]
}

/// The Lua locals of the elements `ordered`, in order: each the element's
/// sanitized name, or that name with the first suffix `_2`, `_3`, ... that
/// no earlier local has.
pub open spec fn var_names(elements: Seq<UiElement>, ordered: Seq<u128>) -> Seq<(u128, Seq<char>)>
    decreases ordered.len(),
{
    if ordered.len() == 0 {
        Seq::empty()
    } else {
        let prev = var_names(elements, ordered.drop_last());
        let el = element_with(elements, ordered.last());
        let used = prev.map_values(|p: (u128, Seq<char>)| p.1);
        prev.push((el.id, free_name(sanitize_var(el.name@), used, 1, (used.len() + 1) as nat)))
    }
}

/// Whether every id of `ordered` is the id of an element.
pub open spec fn all_present(elements: Seq<UiElement>, ordered: Seq<u128>) -> bool {
    forall|i: int| 0 <= i < ordered.len() ==> first_index(ids_of(elements), #[trigger] ordered[i]) is Some
}

fn contains_name(names: &Vec<(u128, String)>, name: &str) -> (r: bool)
    ensures
        r == names_view(names@).map_values(|p: (u128, Seq<char>)| p.1).contains(name@),
{
    let ghost used = names_view(names@).map_values(|p: (u128, Seq<char>)| p.1);
    let mut i: usize = 0;
    while i < names.len()
        invariant
            i <= names@.len(),
            used == names_view(names@).map_values(|p: (u128, Seq<char>)| p.1),
            forall|j: int| 0 <= j < i ==> used[j] != name@,
        decreases names@.len() - i,
    {
        assert(used[i as int] == names@[i as int].1@);
        if crate::text::str_eq(names[i].1.as_str(), name) {
            return true;
        }
        i = i + 1;
    }
    false
}

fn candidate_name(base: &str, k: u128) -> (r: String)
    ensures
        r@ == candidate(base@, k as nat),
{
    if k <= 1 {
        String::from_str(base)
    } else {
        let mut r = String::from_str(base);
        r.append("_");
        push_decimal(&mut r, k);
        r
    }
}

/// The Lua locals of the elements `ordered` (see `var_names`); each id of
/// `ordered` must be the id of an element.
pub fn unique_var_names(project: &Project, ordered: &Vec<u128>) -> (r: Vec<(u128, String)>)
    requires
        all_present(project.elements@, ordered@),
    ensures
        names_view(r@) == var_names(project.elements@, ordered@),
        forall|i: int, j: int| 0 <= i < j < r@.len() ==> (#[trigger] r@[i]).1@ != (#[trigger] r@[j]).1@,
        forall|i: int| 0 <= i < r@.len() ==> is_lua_local((#[trigger] r@[i]).1@),
{
    let mut names: Vec<(u128, String)> = Vec::new();
    let mut i: usize = 0;
    while i < ordered.len()
        invariant
            i <= ordered@.len(),
            names@.len() == i,
            all_present(project.elements@, ordered@),
            names_view(names@) == var_names(project.elements@, ordered@.subrange(0, i as int)),
        decreases ordered@.len() - i,
    {
        assert(ordered@.subrange(0, i + 1).drop_last() =~= ordered@.subrange(0, i as int));
        assert(first_index(ids_of(project.elements@), ordered@[i as int]) is Some);
        let idx = project.element_index(ordered[i]).unwrap();
        let el = &project.elements[idx];
        let base = sanitize_var_name(el.name.as_str());
        let ghost used = names_view(names@).map_values(|p: (u128, Seq<char>)| p.1);
        let mut k: u128 = 1;
        let mut fuel: usize = names.len() + 1;
        let mut cand = candidate_name(base.as_str(), k);
        assert(free_name(base@, used, 1, (used.len() + 1) as nat) == free_name(base@, used, k as nat, fuel as nat));
        while fuel > 0 && contains_name(&names, cand.as_str())
            invariant
                used == names_view(names@).map_values(|p: (u128, Seq<char>)| p.1),
                cand@ == candidate(base@, k as nat),
                1 <= k <= names.len() + 2 - fuel,
                fuel <= names.len() + 1,
                names.len() <= usize::MAX,
                free_name(base@, used, 1, (used.len() + 1) as nat) == free_name(base@, used, k as nat, fuel as nat),
            decreases fuel,
        {
            k = k + 1;
            fuel = fuel - 1;
            cand = candidate_name(base.as_str(), k);
        }
        let ghost prev = names_view(names@);
        names.push((el.id, cand));
        assert(names_view(names@) =~= prev.push((el.id, cand@)));
        assert(prev.map_values(|p: (u128, Seq<char>)| p.1) =~= used);
        i = i + 1;
    }
    assert(ordered@.subrange(0, ordered@.len() as int) =~= ordered@);
    proof {
        lemma_var_names_distinct(project.elements@, ordered@);
        lemma_var_names_locals(project.elements@, ordered@);
        assert forall|i: int| 0 <= i < names@.len() implies is_lua_local((#[trigger] names@[i]).1@) by {
            assert(names_view(names@)[i].1 == names@[i].1@);
        }
        assert forall|i: int, j: int| 0 <= i < j < names@.len() implies (#[trigger] names@[i]).1@ != (#[trigger] names@[j]).1@ by {
            assert(names_view(names@)[i].1 == names@[i].1@);
            assert(names_view(names@)[j].1 == names@[j].1@);
        }
    }
    names
}

/// The opening lines of the script: its comments, then the start of the
/// `CreateUI` function.
pub open spec fn header(name: Seq<char>) -> Seq<char> {
    "-- GLua UI (сгенерировано lua_interface_interpretator)\n"@ + "-- Проект: "@ + name + "\n\n"@
        + "local function CreateUI()\n"@ + "\tlocal scrW, scrH = ScrW(), ScrH()\n\n"@
}

/// The line that creates the element's panel in the local `var`: the root
/// without a parent, any other element in its parent's local.
pub open spec fn create_line(el: UiElement, id: u128, var: Seq<char>, root_id: u128, names: Seq<(u128, Seq<char>)>) -> Seq<char> {
    if id == root_id {
        "\tlocal "@ + var + " = vgui.Create(\""@ + el.kind.vgui_class_of() + "\")\n"@
    } else {
        "\tlocal "@ + var + " = vgui.Create(\""@ + el.kind.vgui_class_of() + "\", "@
            + parent_var(root_id, el, names) + ")\n"@
    }
}

/// The blocks of the named elements `part` (a prefix of `names`): for each,
/// the line that creates its panel, its setup, and an empty line.
pub open spec fn blocks(elements: Seq<UiElement>, root_id: u128, names: Seq<(u128, Seq<char>)>, part: Seq<(u128, Seq<char>)>) -> Seq<char>
    decreases part.len(),
{
    if part.len() == 0 {
        Seq::empty()
    } else {
        let (id, var) = part.last();
        let el = element_with(elements, id);
        blocks(elements, root_id, names, part.drop_last())
            + create_line(el, id, var, root_id, names) + element_setup(el, var, root_id, names) + "\n"@
    }
}

/// Text that occurs in the setup of one of the named elements `part`
/// occurs in their blocks.
proof fn lemma_blocks_contain(
    elements: Seq<UiElement>,
    root_id: u128,
    names: Seq<(u128, Seq<char>)>,
    part: Seq<(u128, Seq<char>)>,
    k: int,
    needle: Seq<char>,
)
    requires
        0 <= k < part.len(),
        contains_text(element_setup(element_with(elements, part[k].0), part[k].1, root_id, names), needle),
    ensures
        contains_text(blocks(elements, root_id, names, part), needle),
    decreases part.len(),
{
    let (id, var) = part.last();
    let el = element_with(elements, id);
    let b = blocks(elements, root_id, names, part.drop_last());
    let c = create_line(el, id, var, root_id, names);
    let st = element_setup(el, var, root_id, names);
    if k == part.len() - 1 {
        lemma_contains_prepended(b + c, st, needle);
    } else {
        assert(part.drop_last()[k] == part[k]);
        lemma_blocks_contain(elements, root_id, names, part.drop_last(), k, needle);
        lemma_contains_extended(b, c, needle);
        lemma_contains_extended(b + c, st, needle);
    }
    lemma_contains_extended(b + c + st, "\n"@, needle);
}

/// The closing lines: `CreateUI` returns the root's panel (the local of the
/// root's sanitized name), and the script returns `CreateUI`.
pub open spec fn footer(root: UiElement) -> Seq<char> {
    "\treturn "@ + sanitize_var(root.name@) + "\nend\n\n"@ + "return CreateUI\n"@
}

/// The GLua script of the design: a function `CreateUI` that creates the
/// panels of the tree under the root in depth-first order, each under its
/// own local and set up, and returns the root's panel.
pub open spec fn glua_script(p: Project) -> Seq<char> {
    let ordered = preorder(p.elements@, p.root_id, p.elements@.len() as nat);
    let names = var_names(p.elements@, ordered);
    header(p.name@) + blocks(p.elements@, p.root_id, names, names)
        + footer(element_with(p.elements@, p.root_id))
}

/// Every docked panel of the script is docked by a line that names its own
/// mode: for each element under the root, in the order the script creates
/// them, whose dock mode is not `Undocked`, the script holds
/// `<local>:Dock(` with the mode's name in capitals, then `)`.
pub proof fn lemma_script_docks(p: Project, k: int)
    requires
        0 <= k < var_names(p.elements@, preorder(p.elements@, p.root_id, p.elements@.len() as nat)).len(),
        element_with(
            p.elements@,
            var_names(p.elements@, preorder(p.elements@, p.root_id, p.elements@.len() as nat))[k].0,
        ).dock != DockMode::Undocked,
    ensures
        contains_text(
            glua_script(p),
            "\t"@ + var_names(p.elements@, preorder(p.elements@, p.root_id, p.elements@.len() as nat))[k].1
                + ":Dock("@ + ascii_uppercase(dock_name(element_with(
                p.elements@,
                var_names(p.elements@, preorder(p.elements@, p.root_id, p.elements@.len() as nat))[k].0,
            ).dock)) + ")\n"@,
        ),
{
    let ordered = preorder(p.elements@, p.root_id, p.elements@.len() as nat);
    let names = var_names(p.elements@, ordered);
    let el = element_with(p.elements@, names[k].0);
    let line = "\t"@ + names[k].1 + ":Dock("@ + ascii_uppercase(dock_name(el.dock)) + ")\n"@;
    lemma_dock_in_setup(el, names[k].1, p.root_id, names);
    lemma_blocks_contain(p.elements@, p.root_id, names, names, k, line);
    let b = blocks(p.elements@, p.root_id, names, names);
    lemma_contains_prepended(header(p.name@), b, line);
    lemma_contains_extended(header(p.name@) + b, footer(element_with(p.elements@, p.root_id)), line);
}

/// The GLua script of the design (see `glua_script`); the root must be one
/// of its elements.
pub fn generate_glua(project: &Project) -> (r: String)
    requires
        project.lookup(project.root_id) is Some,
    ensures
        r@ == glua_script(*project),
{
    let ghost elements = project.elements@;
    let mut out = emit_header(project.name.as_str());
    let root = project.element(project.root_id).unwrap();
    let ordered = topological_order(project, project.root_id);
    proof {
        lemma_preorder_present(elements, project.root_id, elements.len() as nat);
        assert forall|i: int| 0 <= i < ordered@.len() implies first_index(ids_of(elements), #[trigger] ordered@[i]) is Some by {
            assert(ordered@[i] == project.root_id || first_index(ids_of(elements), ordered@[i]) is Some);
        }
    }
    let names = unique_var_names(project, &ordered);
    let ghost nv = names_view(names@);
    proof {
        lemma_var_names_ids(elements, ordered@);
    }
    let ghost h = out@;
    let mut i: usize = 0;
    while i < names.len()
        invariant
            elements == project.elements@,
            nv == names_view(names@),
            nv.len() == ordered@.len(),
            all_present(elements, ordered@),
            forall|j: int| 0 <= j < nv.len() ==> (#[trigger] nv[j]).0 == ordered@[j],
            i <= names@.len(),
            out@ == h + blocks(elements, project.root_id, nv, nv.subrange(0, i as int)),
        decreases names@.len() - i,
    {
        proof {
            assert(nv.subrange(0, i + 1).drop_last() =~= nv.subrange(0, i as int));
            assert(nv[i as int].0 == ordered@[i as int]);
            assert(first_index(ids_of(elements), ordered@[i as int]) is Some);
        }
        let el = project.element(names[i].0).unwrap();
        emit_block(&mut out, el, names[i].0, names[i].1.as_str(), project.root_id, &names);
        i = i + 1;
    }
    assert(nv.subrange(0, nv.len() as int) =~= nv);
    emit_footer(&mut out, root);
    out
}

fn emit_header(name: &str) -> (r: String)
    ensures
        r@ == header(name@),
{
    let mut out = String::from_str("-- GLua UI (сгенерировано lua_interface_interpretator)\n");
    out.append("-- Проект: ");
    out.append(name);
    out.append("\n\n");
    out.append("local function CreateUI()\n");
    out.append("\tlocal scrW, scrH = ScrW(), ScrH()\n\n");
    out
}

fn emit_footer(out: &mut String, root: &UiElement)
    ensures
        final(out)@ == old(out)@ + footer(*root),
{
    out.append("\treturn ");
    let root_var = sanitize_var_name(root.name.as_str());
    out.append(root_var.as_str());
    out.append("\nend\n\n");
    out.append("return CreateUI\n");
}

fn emit_create_line(out: &mut String, el: &UiElement, id: u128, var: &str, root_id: u128, names: &Vec<(u128, String)>)
    ensures
        final(out)@ == old(out)@ + create_line(*el, id, var@, root_id, names_view(names@)),
{
    if id == root_id {
        out.append("\tlocal ");
        out.append(var);
        out.append(" = vgui.Create(\"");
        out.append(el.kind.vgui_class());
        out.append("\")\n");
    } else {
        let parent = parent_var_name(root_id, el, names);
        out.append("\tlocal ");
        out.append(var);
        out.append(" = vgui.Create(\"");
        out.append(el.kind.vgui_class());
        out.append("\", ");
        out.append(parent.as_str());
        out.append(")\n");
    }
}

fn emit_block(out: &mut String, el: &UiElement, id: u128, var: &str, root_id: u128, names: &Vec<(u128, String)>)
    ensures
        final(out)@ == old(out)@ + create_line(*el, id, var@, root_id, names_view(names@))
            + element_setup(*el, var@, root_id, names_view(names@)) + "\n"@,
{
    let ghost o = out@;
    emit_create_line(out, el, id, var, root_id, names);
    let ghost a = out@;
    emit_element_setup(out, el, var, root_id, names);
    let ghost b = out@;
    crate::text::push_char(out, '\n');
    assert(out@ == b + "\n"@) by {
        reveal_strlit("\n");
        assert(b.push('\n') =~= b + "\n"@);
    }
}

/// The locals name the ids of `ordered`, one for one and in order.
pub proof fn lemma_var_names_ids(elements: Seq<UiElement>, ordered: Seq<u128>)
    requires
        all_present(elements, ordered),
    ensures
        var_names(elements, ordered).len() == ordered.len(),
        forall|j: int| 0 <= j < ordered.len() ==> (#[trigger] var_names(elements, ordered)[j]).0 == ordered[j],
    decreases ordered.len(),
{
    if ordered.len() > 0 {
        let rest = ordered.drop_last();
        assert(all_present(elements, rest)) by {
            assert forall|i: int| 0 <= i < rest.len() implies first_index(ids_of(elements), #[trigger] rest[i]) is Some by {
                assert(rest[i] == ordered[i]);
            }
        }
        lemma_var_names_ids(elements, rest);
        let x = ordered.last();
        assert(first_index(ids_of(elements), ordered[ordered.len() - 1]) is Some);
        let k = first_index(ids_of(elements), x)->0;
        assert(is_first(ids_of(elements), x, k));
        assert(element_with(elements, x).id == x);
        let v = var_names(elements, ordered);
        assert forall|j: int| 0 <= j < ordered.len() implies (#[trigger] v[j]).0 == ordered[j] by {
            if j < rest.len() {
                assert(v[j] == var_names(elements, rest)[j]);
                assert(rest[j] == ordered[j]);
            }
        }
    }
}

/// No two tries for the same base name are the same text.
pub proof fn lemma_candidates_distinct(base: Seq<char>, j: nat, k: nat)
    requires
        1 <= j < k,
    ensures
        candidate(base, j) != candidate(base, k),
{
    reveal_strlit("_");
    lemma_decimal_len(k);
    let ck = candidate(base, k);
    if j >= 2 {
        let cj = candidate(base, j);
        if cj == ck {
            let n = base.len() + 1;
            assert(cj.subrange(n as int, cj.len() as int) =~= decimal(j));
            assert(ck.subrange(n as int, ck.len() as int) =~= decimal(k));
            lemma_decimal_injective(j, k);
        }
    } else {
        assert(ck.len() > base.len());
    }
}

/// Whether the tries `1..=n` for the base name are all among `used`.
pub open spec fn tries_used(base: Seq<char>, used: Seq<Seq<char>>, n: nat) -> bool {
    forall|i: nat| 1 <= i <= n ==> used.contains(#[trigger] candidate(base, i))
}

/// The tries `1..=n` are `n` different texts, so they cannot all be among
/// fewer than `n` used names.
pub proof fn lemma_tries_bound(base: Seq<char>, used: Seq<Seq<char>>, n: nat)
    requires
        tries_used(base, used, n),
    ensures
        n <= used.len(),
{
    let f = |i: int| candidate(base, i as nat);
    let range = set_int_range(1, (n + 1) as int);
    lemma_int_range(1, (n + 1) as int);
    assert(injective_on(f, range)) by {
        assert forall|a: int, b: int| range.contains(a) && range.contains(b) && #[trigger] f(a) == #[trigger] f(b) implies a == b by {
            if a < b {
                lemma_candidates_distinct(base, a as nat, b as nat);
            } else if b < a {
                lemma_candidates_distinct(base, b as nat, a as nat);
            }
        }
    }
    let tries = range.map(f);
    lemma_map_size(range, tries, f);
    assert(tries.subset_of(used.to_set())) by {
        assert forall|t: Seq<char>| tries.contains(t) implies used.to_set().contains(t) by {
            let i = choose|i: int| range.contains(i) && f(i) == t;
            assert(used.contains(candidate(base, i as nat)));
        }
    }
    used.lemma_cardinality_of_set();
    lemma_len_subset(tries, used.to_set());
}

/// The name that `free_name` picks is not among `used`, when the tries
/// before the `k`-th are all used and enough tries are left.
pub proof fn lemma_free_name_fresh(base: Seq<char>, used: Seq<Seq<char>>, k: nat, fuel: nat)
    requires
        k >= 1,
        k + fuel >= used.len() + 2,
        tries_used(base, used, (k - 1) as nat),
    ensures
        !used.contains(free_name(base, used, k, fuel)),
    decreases fuel,
{
    if used.contains(candidate(base, k)) {
        assert(tries_used(base, used, k)) by {
            assert forall|i: nat| 1 <= i <= k implies used.contains(#[trigger] candidate(base, i)) by {
                if i < k {
                    assert(1 <= i <= (k - 1) as nat);
                }
            }
        }
        if fuel == 0 {
            lemma_tries_bound(base, used, k);
        } else {
            lemma_free_name_fresh(base, used, k + 1, (fuel - 1) as nat);
        }
    }
}

/// No two elements get the same Lua local: each name differs from every
/// name before it.
pub proof fn lemma_var_names_distinct(elements: Seq<UiElement>, ordered: Seq<u128>)
    ensures
        forall|i: int, j: int| 0 <= i < j < var_names(elements, ordered).len()
            ==> (#[trigger] var_names(elements, ordered)[i]).1 != (#[trigger] var_names(elements, ordered)[j]).1,
    decreases ordered.len(),
{
    if ordered.len() > 0 {
        let rest = ordered.drop_last();
        lemma_var_names_distinct(elements, rest);
        let prev = var_names(elements, rest);
        let el = element_with(elements, ordered.last());
        let used = prev.map_values(|p: (u128, Seq<char>)| p.1);
        let base = sanitize_var(el.name@);
        lemma_free_name_fresh(base, used, 1, (used.len() + 1) as nat);
        let v = var_names(elements, ordered);
        assert forall|i: int, j: int| 0 <= i < j < v.len() implies (#[trigger] v[i]).1 != (#[trigger] v[j]).1 by {
            assert(v[i] == prev[i]);
            if j < prev.len() {
                assert(v[j] == prev[j]);
            } else {
                assert(used[i] == prev[i].1);
            }
        }
    }
}

/// Every try for a base name that can name a Lua local can name one too.
pub proof fn lemma_candidate_local(base: Seq<char>, k: nat)
    requires
        is_lua_local(base),
    ensures
        is_lua_local(candidate(base, k)),
{
    if k > 1 {
        reveal_strlit("_");
        lemma_decimal_digits(k);
        let c = candidate(base, k);
        let n = base.len();
        assert(c[n as int] == '_');
        lemma_underscore_not_keyword(c, n as int);
        assert(c[0] == base[0]);
        assert forall|i: int| 0 <= i < c.len() implies is_ascii_alnum(#[trigger] c[i]) || c[i] == '_' by {
            if i < n {
                assert(c[i] == base[i]);
            } else if i > n {
                assert(c[i] == decimal(k)[i - n - 1]);
            }
        }
    }
}

proof fn lemma_free_name_local(base: Seq<char>, used: Seq<Seq<char>>, k: nat, fuel: nat)
    requires
        is_lua_local(base),
    ensures
        is_lua_local(free_name(base, used, k, fuel)),
    decreases fuel,
{
    lemma_candidate_local(base, k);
    if fuel > 0 && used.contains(candidate(base, k)) {
        lemma_free_name_local(base, used, k + 1, (fuel - 1) as nat);
    }
}

/// Every element gets a name that a Lua local can have: ASCII letters,
/// digits and underscores, not starting with a digit, no reserved word.
pub proof fn lemma_var_names_locals(elements: Seq<UiElement>, ordered: Seq<u128>)
    ensures
        forall|j: int| 0 <= j < var_names(elements, ordered).len() ==> is_lua_local(
            (#[trigger] var_names(elements, ordered)[j]).1,
        ),
    decreases ordered.len(),
{
    if ordered.len() > 0 {
        let rest = ordered.drop_last();
        lemma_var_names_locals(elements, rest);
        let prev = var_names(elements, rest);
        let el = element_with(elements, ordered.last());
        let used = prev.map_values(|p: (u128, Seq<char>)| p.1);
        lemma_sanitize_var_local(el.name@);
        lemma_free_name_local(sanitize_var(el.name@), used, 1, (used.len() + 1) as nat);
        let v = var_names(elements, ordered);
        assert forall|j: int| 0 <= j < v.len() implies is_lua_local((#[trigger] v[j]).1) by {
            if j < prev.len() {
                assert(v[j] == prev[j]);
            }
        }
    }
}

/// Each id in the tree under `id` is `id` itself or the id of an element.
pub proof fn lemma_preorder_present(elements: Seq<UiElement>, id: u128, fuel: nat)
    ensures
        forall|i: int| 0 <= i < preorder(elements, id, fuel).len() ==> #[trigger] preorder(elements, id, fuel)[i] == id
            || first_index(ids_of(elements), preorder(elements, id, fuel)[i]) is Some,
    decreases fuel, 0nat, 0nat,
{
    if fuel > 0 {
        lemma_children_present(elements, id);
        lemma_preorder_all_present(elements, children(elements, id), (fuel - 1) as nat);
    }
}

/// Each id in the trees under the ids is the id of an element, when each
/// of the ids is.
pub proof fn lemma_preorder_all_present(elements: Seq<UiElement>, ids: Seq<u128>, fuel: nat)
    requires
        all_present(elements, ids),
    ensures
        all_present(elements, preorder_all(elements, ids, fuel)),
    decreases fuel, 1nat, ids.len(),
{
    if ids.len() > 0 {
        assert(all_present(elements, ids.drop_last()));
        lemma_preorder_all_present(elements, ids.drop_last(), fuel);
        lemma_preorder_present(elements, ids.last(), fuel);
        assert(first_index(ids_of(elements), ids[ids.len() - 1]) is Some);
        let a = preorder_all(elements, ids.drop_last(), fuel);
        let b = preorder(elements, ids.last(), fuel);
        assert forall|i: int| 0 <= i < (a + b).len() implies first_index(ids_of(elements), #[trigger] (a + b)[i]) is Some by {
            if i >= a.len() {
                assert((a + b)[i] == b[i - a.len()]);
            } else {
                assert((a + b)[i] == a[i]);
            }
        }
    }
}

/// The children of an element are ids of elements.
pub proof fn lemma_children_present(elements: Seq<UiElement>, parent: u128)
    ensures
        all_present(elements, children(elements, parent)),
    decreases elements.len(),
{
    if elements.len() > 0 {
        let rest = elements.drop_last();
        lemma_children_present(rest, parent);
        let kids = children(elements, parent);
        assert forall|i: int| 0 <= i < kids.len() implies first_index(ids_of(elements), #[trigger] kids[i]) is Some by {
            let x = kids[i];
            if i < children(rest, parent).len() {
                assert(first_index(ids_of(rest), x) is Some);
                let j = first_index(ids_of(rest), x)->0;
                assert(is_first(ids_of(rest), x, j));
                lemma_first_prefix(elements, x, j);
            } else {
                lemma_last_present(elements, x);
            }
        }
    }
}

use crate::model::project::is_first;

proof fn lemma_first_prefix(elements: Seq<UiElement>, x: u128, j: int)
    requires
        elements.len() > 0,
        is_first(ids_of(elements.drop_last()), x, j),
    ensures
        first_index(ids_of(elements), x) is Some,
{
    assert(ids_of(elements)[j] == ids_of(elements.drop_last())[j]);
    assert forall|k: int| 0 <= k < j implies ids_of(elements)[k] != x by {
        assert(ids_of(elements)[k] == ids_of(elements.drop_last())[k]);
    }
    assert(is_first(ids_of(elements), x, j));
    lemma_first_index(ids_of(elements), x, j);
}

proof fn lemma_last_present(elements: Seq<UiElement>, x: u128)
    requires
        elements.len() > 0,
        elements.last().id == x,
    ensures
        first_index(ids_of(elements), x) is Some,
{
    let ids = ids_of(elements);
    let n = elements.len() - 1;
    assert(ids[n] == x);
    if forall|k: int| 0 <= k < n ==> ids[k] != x {
        assert(is_first(ids, x, n));
        lemma_first_index(ids, x, n);
    } else {
        let k0 = choose|k: int| 0 <= k < n && ids[k] == x;
        lemma_some_first(ids, x, k0);
    }
}

/// When `id` occurs in the ids, it has a first index.
pub proof fn lemma_some_first(ids: Seq<u128>, id: u128, k: int)
    requires
        0 <= k < ids.len(),
        ids[k] == id,
    ensures
        first_index(ids, id) is Some,
    decreases k,
{
    if forall|j: int| 0 <= j < k ==> ids[j] != id {
        assert(is_first(ids, id, k));
        lemma_first_index(ids, id, k);
    } else {
        let j = choose|j: int| 0 <= j < k && ids[j] == id;
        lemma_some_first(ids, id, j);
    }
}

} // verus!
