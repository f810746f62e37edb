//! The setup lines that the exporter writes for one element after creating
//! its panel.

use vstd::prelude::*;
use vstd::string::*;
use crate::codegen::paint::{
    cached_colors, combined_paint, emit_cached_ui_colors, emit_combined_paint, emit_solid_paint,
    lua_bool, bool_lua, material_expr, material_glua, solid_paint,
};
use crate::model::element::{DockMode, ElementKind, UiElement};
use crate::model::expr::NumAxis;
use crate::paths::ascii_uppercase;
use crate::ui::hierarchy::{contains_text, lemma_contains_extended, lemma_contains_last};
use crate::ui::properties::dock_name;
use crate::text::{escape_lua, indented, lines, push_escaped, push_indented_lines, trim, trimmed};

verus! {

broadcast use crate::text::group_text;

/// The element/name pairs as values.
pub open spec fn names_view(names: Seq<(u128, String)>) -> Seq<(u128, Seq<char>)> {
    names.map_values(|p: (u128, String)| (p.0, p.1@))
}

/// The name paired with the first `id` in `names`, or `nil`.
pub open spec fn name_of(names: Seq<(u128, Seq<char>)>, id: u128) -> Seq<char>
    decreases names.len(),
{
    if names.len() == 0 {
        "nil"@
    } else if names[0].0 == id {
        names[0].1
    } else {
        name_of(names.drop_first(), id)
    }
}

/// The local that holds the element's parent: the parent's name, the
/// root's when the element has no parent, `nil` when it has none.
pub open spec fn parent_var(root_id: u128, el: UiElement, names: Seq<(u128, Seq<char>)>) -> Seq<char> {
    name_of(names, match el.parent { Some(p) => p, None => root_id })
}

/// The local that holds the element's parent.
pub fn parent_var_name(root_id: u128, el: &UiElement, names: &Vec<(u128, String)>) -> (r: String)
    ensures
        r@ == parent_var(root_id, *el, names_view(names@)),
{
    let parent_id = match el.parent {
        Some(p) => p,
        None => root_id,
    };
    assert(parent_var(root_id, *el, names_view(names@)) == name_of(names_view(names@), parent_id));
    let mut i: usize = 0;
    assert(names_view(names@).subrange(0, names@.len() as int) =~= names_view(names@));
    while i < names.len()
        invariant
            i <= names@.len(),
            parent_var(root_id, *el, names_view(names@)) == name_of(names_view(names@), parent_id),
            name_of(names_view(names@), parent_id) == name_of(names_view(names@).subrange(i as int, names@.len() as int), parent_id),
        decreases names@.len() - i,
    {
        let ghost rest = names_view(names@).subrange(i as int, names@.len() as int);
        assert(rest.drop_first() =~= names_view(names@).subrange(i + 1, names@.len() as int));
        assert(rest[0] == (names@[i as int].0, names@[i as int].1@));
        if names[i].0 == parent_id {
            assert(rest.len() > 0);
            assert(name_of(rest, parent_id) == rest[0].1);
            let r = names[i].1.clone();
            assert(r@ == rest[0].1);
            return r;
        }
        i = i + 1;
    }
    String::from_str("nil")
}

/// The `DoClick` function of the element's click code (trimmed, each line
/// indented); nothing when the code is blank.
pub open spec fn do_click(el: UiElement, var: Seq<char>) -> Seq<char> {
    let code = trim(el.lua_do_click@);
    if code.len() == 0 {
        Seq::empty()
    } else {
        "\t"@ + var + ".DoClick = function(self)\n"@ + indented("\t\t"@, lines(code)) + "\tend\n"@
    }
}

/// Writes the `DoClick` function of the element's click code.
pub fn emit_do_click(out: &mut String, el: &UiElement, var: &str)
    ensures
        final(out)@ == old(out)@ + do_click(*el, var@),
{
    let code = trimmed(el.lua_do_click.as_str());
    if code.as_str().unicode_len() == 0 {
        return;
    }
    out.append("\t");
    out.append(var);
    out.append(".DoClick = function(self)\n");
    push_indented_lines(out, "\t\t", code.as_str());
    out.append("\tend\n");
}

/// The `Think` function that runs the element's hover code (trimmed, each
/// line indented) while the panel is hovered; nothing when it is blank.
pub open spec fn on_hover(el: UiElement, var: Seq<char>) -> Seq<char> {
    let code = trim(el.lua_on_hover@);
    if code.len() == 0 {
        Seq::empty()
    } else {
        "\t"@ + var + ".Think = function(self)\n"@ + "\t\tif self:IsHovered() then\n"@
            + indented("\t\t\t"@, lines(code)) + "\t\tend\n"@ + "\tend\n"@
    }
}

/// Writes the `Think` function that runs the element's hover code.
pub fn emit_on_hover(out: &mut String, el: &UiElement, var: &str)
    ensures
        final(out)@ == old(out)@ + on_hover(*el, var@),
{
    let code = trimmed(el.lua_on_hover.as_str());
    if code.as_str().unicode_len() == 0 {
        return;
    }
    out.append("\t");
    out.append(var);
    out.append(".Think = function(self)\n");
    out.append("\t\tif self:IsHovered() then\n");
    push_indented_lines(out, "\t\t\t", code.as_str());
    out.append("\t\tend\n");
    out.append("\tend\n");
}

/// The close button that the exporter adds to the panel: a `DButton`
/// `<var>_CloseBtn` at its position in the panel, of its size, with its
/// caption, whose `DoClick` runs its click code (trimmed), or removes the
/// panel when that is blank.
pub open spec fn close_button(el: UiElement, var: Seq<char>) -> Seq<char> {
    let cb = el.close_button;
    let cb_var = var + "_CloseBtn"@;
    let code = trim(cb.lua_do_click@);
    let click = if code.len() == 0 { "self:GetParent():Remove()"@ } else { code };
    "\tlocal "@ + cb_var + " = vgui.Create(\"DButton\", "@ + var + ")\n"@
        + "\t"@ + cb_var + ":SetPos("@ + cb.x.glua_for_child(var, NumAxis::X) + ", "@
        + cb.y.glua_for_child(var, NumAxis::Y) + ")\n"@
        + "\t"@ + cb_var + ":SetSize("@ + cb.w.whole@ + ", "@ + cb.h.whole@ + ")\n"@
        + "\t"@ + cb_var + ":SetText(\""@ + escape_lua(cb.label@) + "\")\n"@
        + "\t"@ + cb_var + ".DoClick = function(self)\n"@ + indented("\t\t"@, lines(click)) + "\tend\n"@
}

/// Writes the close button that the exporter adds to the panel.
pub fn emit_generated_close_button(out: &mut String, el: &UiElement, var: &str)
    ensures
        final(out)@ == old(out)@ + close_button(*el, var@),
{
    let cb = &el.close_button;
    let cb_var = String::from_str(var).concat("_CloseBtn");
    let ghost o = out@;
    out.append("\tlocal ");
    out.append(cb_var.as_str());
    out.append(" = vgui.Create(\"DButton\", ");
    out.append(var);
    out.append(")\n");
    let xg = cb.x.to_glua_for_child(var, NumAxis::X);
    let yg = cb.y.to_glua_for_child(var, NumAxis::Y);
    out.append("\t");
    out.append(cb_var.as_str());
    out.append(":SetPos(");
    out.append(xg.as_str());
    out.append(", ");
    out.append(yg.as_str());
    out.append(")\n");
    let ghost o1 = out@;
    out.append("\t");
    out.append(cb_var.as_str());
    out.append(":SetSize(");
    out.append(cb.w.whole.as_str());
    out.append(", ");
    out.append(cb.h.whole.as_str());
    out.append(")\n");
    out.append("\t");
    out.append(cb_var.as_str());
    out.append(":SetText(\"");
    push_escaped(out, cb.label.as_str());
    out.append("\")\n");
    let ghost o2 = out@;
    let code = trimmed(cb.lua_do_click.as_str());
    let click = if code.as_str().unicode_len() == 0 {
        String::from_str("self:GetParent():Remove()")
    } else {
        code
    };
    out.append("\t");
    out.append(cb_var.as_str());
    out.append(".DoClick = function(self)\n");
    push_indented_lines(out, "\t\t", click.as_str());
    out.append("\tend\n");
}

/// The line that clears the text that the panel's class draws by itself:
/// a text entry's value, a button's text, a frame's title.
pub open spec fn clear_builtin_text(el: UiElement, var: Seq<char>) -> Seq<char> {
    match el.kind {
        ElementKind::TextEntry => "\t"@ + var + ":SetValue(\"\")\n"@,
        ElementKind::Button => "\t"@ + var + ":SetText(\"\")\n"@,
        ElementKind::Frame => "\t"@ + var + ":SetTitle(\"\")\n"@,
        _ => Seq::empty(),
    }
}

/// Writes the line that clears the text that the panel's class draws.
pub fn emit_clear_builtin_text(out: &mut String, el: &UiElement, var: &str)
    ensures
        final(out)@ == old(out)@ + clear_builtin_text(*el, var@),
{
    match el.kind {
        ElementKind::TextEntry => {
            out.append("\t");
            out.append(var);
            out.append(":SetValue(\"\")\n");
        },
        ElementKind::Button => {
            out.append("\t");
            out.append(var);
            out.append(":SetText(\"\")\n");
        },
        ElementKind::Frame => {
            out.append("\t");
            out.append(var);
            out.append(":SetTitle(\"\")\n");
        },
        _ => {},
    }
}

/// The `Dock` call of a docked element; for an undocked one its `SetPos`
/// and `SetSize`, relative to its parent's local when it has a parent.
pub open spec fn placement(el: UiElement, var: Seq<char>, root_id: u128, names: Seq<(u128, Seq<char>)>) -> Seq<char> {
    match el.dock {
        DockMode::Fill => "\t"@ + var + ":Dock(FILL)\n"@,
        DockMode::Top => "\t"@ + var + ":Dock(TOP)\n"@,
        DockMode::Bottom => "\t"@ + var + ":Dock(BOTTOM)\n"@,
        DockMode::Left => "\t"@ + var + ":Dock(LEFT)\n"@,
        DockMode::Right => "\t"@ + var + ":Dock(RIGHT)\n"@,
        DockMode::Undocked => {
            let pv = parent_var(root_id, el, names);
            let (xg, yg, wg, hg) = if el.parent is Some {
                (el.x.glua_for_child(pv, NumAxis::X), el.y.glua_for_child(pv, NumAxis::Y),
                 el.w.glua_for_child(pv, NumAxis::W), el.h.glua_for_child(pv, NumAxis::H))
            } else {
                (el.x.glua(), el.y.glua(), el.w.glua(), el.h.glua())
            };
            "\t"@ + var + ":SetPos("@ + xg + ", "@ + yg + ")\n"@
                + "\t"@ + var + ":SetSize("@ + wg + ", "@ + hg + ")\n"@
        },
    }
}

/// A docked element is placed by one line that docks its local to the
/// side its mode names: `<var>:Dock(` and the mode's name in capitals
/// (`FILL`, `TOP`, `BOTTOM`, `LEFT`, `RIGHT`), then `)`.
pub proof fn lemma_dock_line(el: UiElement, var: Seq<char>, root_id: u128, names: Seq<(u128, Seq<char>)>)
    requires
        el.dock != DockMode::Undocked,
    ensures
        placement(el, var, root_id, names) == "\t"@ + var + ":Dock("@ + ascii_uppercase(dock_name(el.dock)) + ")\n"@,
{
    reveal_strlit(":Dock(");
    reveal_strlit(")\n");
    match el.dock {
        DockMode::Fill => {
            reveal_strlit("Fill");
            reveal_strlit("FILL");
            reveal_strlit(":Dock(FILL)\n");
            assert(ascii_uppercase("Fill"@) =~= "FILL"@);
            assert(":Dock(FILL)\n"@ =~= ":Dock("@ + "FILL"@ + ")\n"@);
            assert(placement(el, var, root_id, names) =~= "\t"@ + var + ":Dock("@ + "FILL"@ + ")\n"@);
        },
        DockMode::Top => {
            reveal_strlit("Top");
            reveal_strlit("TOP");
            reveal_strlit(":Dock(TOP)\n");
            assert(ascii_uppercase("Top"@) =~= "TOP"@);
            assert(":Dock(TOP)\n"@ =~= ":Dock("@ + "TOP"@ + ")\n"@);
            assert(placement(el, var, root_id, names) =~= "\t"@ + var + ":Dock("@ + "TOP"@ + ")\n"@);
        },
        DockMode::Bottom => {
            reveal_strlit("Bottom");
            reveal_strlit("BOTTOM");
            reveal_strlit(":Dock(BOTTOM)\n");
            assert(ascii_uppercase("Bottom"@) =~= "BOTTOM"@);
            assert(":Dock(BOTTOM)\n"@ =~= ":Dock("@ + "BOTTOM"@ + ")\n"@);
            assert(placement(el, var, root_id, names) =~= "\t"@ + var + ":Dock("@ + "BOTTOM"@ + ")\n"@);
        },
        DockMode::Left => {
            reveal_strlit("Left");
            reveal_strlit("LEFT");
            reveal_strlit(":Dock(LEFT)\n");
            assert(ascii_uppercase("Left"@) =~= "LEFT"@);
            assert(":Dock(LEFT)\n"@ =~= ":Dock("@ + "LEFT"@ + ")\n"@);
            assert(placement(el, var, root_id, names) =~= "\t"@ + var + ":Dock("@ + "LEFT"@ + ")\n"@);
        },
        DockMode::Right => {
            reveal_strlit("Right");
            reveal_strlit("RIGHT");
            reveal_strlit(":Dock(RIGHT)\n");
            assert(ascii_uppercase("Right"@) =~= "RIGHT"@);
            assert(":Dock(RIGHT)\n"@ =~= ":Dock("@ + "RIGHT"@ + ")\n"@);
            assert(placement(el, var, root_id, names) =~= "\t"@ + var + ":Dock("@ + "RIGHT"@ + ")\n"@);
        },
        DockMode::Undocked => {},
    }
}

fn emit_dock(out: &mut String, var: &str, call: &str)
    ensures
        final(out)@ == old(out)@ + "\t"@ + var@ + call@,
{
    out.append("\t");
    out.append(var);
    out.append(call);
}

fn emit_placement(out: &mut String, el: &UiElement, var: &str, root_id: u128, names: &Vec<(u128, String)>)
    ensures
        final(out)@ == old(out)@ + placement(*el, var@, root_id, names_view(names@)),
        el.dock != DockMode::Undocked
            ==> final(out)@ == old(out)@ + "\t"@ + var@ + ":Dock("@ + ascii_uppercase(dock_name(el.dock)) + ")\n"@,
{
    proof {
        if el.dock != DockMode::Undocked {
            lemma_dock_line(*el, var@, root_id, names_view(names@));
        }
    }
    match el.dock {
        DockMode::Fill => emit_dock(out, var, ":Dock(FILL)\n"),
        DockMode::Top => emit_dock(out, var, ":Dock(TOP)\n"),
        DockMode::Bottom => emit_dock(out, var, ":Dock(BOTTOM)\n"),
        DockMode::Left => emit_dock(out, var, ":Dock(LEFT)\n"),
        DockMode::Right => emit_dock(out, var, ":Dock(RIGHT)\n"),
        DockMode::Undocked => {
            let (xg, yg, wg, hg) = if el.parent.is_some() {
                let pv = parent_var_name(root_id, el, names);
                (
                    el.x.to_glua_for_child(pv.as_str(), NumAxis::X),
                    el.y.to_glua_for_child(pv.as_str(), NumAxis::Y),
                    el.w.to_glua_for_child(pv.as_str(), NumAxis::W),
                    el.h.to_glua_for_child(pv.as_str(), NumAxis::H),
                )
            } else {
                (el.x.to_glua(), el.y.to_glua(), el.w.to_glua(), el.h.to_glua())
            };
            out.append("\t");
            out.append(var);
            out.append(":SetPos(");
            out.append(xg.as_str());
            out.append(", ");
            out.append(yg.as_str());
            out.append(")\n");
            out.append("\t");
            out.append(var);
            out.append(":SetSize(");
            out.append(wg.as_str());
            out.append(", ");
            out.append(hg.as_str());
            out.append(")\n");
        },
    }
}

/// A text entry's settings: background, border, multiline, numeric,
/// editable.
pub open spec fn text_entry_settings(el: UiElement, var: Seq<char>) -> Seq<char> {
    "\t"@ + var + ":SetDrawBackground("@ + lua_bool(el.text_entry_draw_background) + ")\n"@
        + "\t"@ + var + ":SetDrawBorder("@ + lua_bool(el.text_entry_draw_border) + ")\n"@
        + "\t"@ + var + ":SetMultiline("@ + lua_bool(el.text_entry_multiline) + ")\n"@
        + "\t"@ + var + ":SetNumeric("@ + lua_bool(el.text_entry_numeric) + ")\n"@
        + "\t"@ + var + ":SetEditable("@ + lua_bool(el.text_entry_editable) + ")\n"@
}

fn emit_call_bool(out: &mut String, var: &str, call: &str, v: bool)
    ensures
        final(out)@ == old(out)@ + "\t"@ + var@ + call@ + lua_bool(v) + ")\n"@,
{
    out.append("\t");
    out.append(var);
    out.append(call);
    out.append(bool_lua(v));
    out.append(")\n");
}

fn emit_text_entry_settings(out: &mut String, el: &UiElement, var: &str)
    ensures
        final(out)@ == old(out)@ + text_entry_settings(*el, var@),
{
    emit_call_bool(out, var, ":SetDrawBackground(", el.text_entry_draw_background);
    emit_call_bool(out, var, ":SetDrawBorder(", el.text_entry_draw_border);
    emit_call_bool(out, var, ":SetMultiline(", el.text_entry_multiline);
    emit_call_bool(out, var, ":SetNumeric(", el.text_entry_numeric);
    emit_call_bool(out, var, ":SetEditable(", el.text_entry_editable);
}

/// The lines before the colours: visibility, placement, cleared class
/// text, an image's material, a text entry's settings, `MakePopup`, the
/// Escape handler and a disabled button's `SetEnabled(false)`.
pub open spec fn setup_head(el: UiElement, var: Seq<char>, root_id: u128, names: Seq<(u128, Seq<char>)>) -> Seq<char> {
    (if !el.visible { "\t"@ + var + ":SetVisible(false)\n"@ } else { Seq::empty() })
        + placement(el, var, root_id, names)
        + clear_builtin_text(el, var)
        + (if el.kind is Image { "\t"@ + var + ":SetMaterial("@ + material_glua(el) + ")\n"@ } else { Seq::empty() })
        + (if el.kind is TextEntry { text_entry_settings(el, var) } else { Seq::empty() })
        + (if el.make_popup { "\t"@ + var + ":MakePopup()\n"@ } else { Seq::empty() })
        + (if el.close_on_escape {
            "\t"@ + var + ".OnKeyCodeReleased = function(self, key)\n"@
                + "\t\tif key == KEY_ESCAPE then self:Remove() end\n"@ + "\tend\n"@
        } else {
            Seq::empty()
        })
        + (if el.kind is Button && el.button_disabled { "\t"@ + var + ":SetEnabled(false)\n"@ } else { Seq::empty() })
}

fn emit_setup_head(out: &mut String, el: &UiElement, var: &str, root_id: u128, names: &Vec<(u128, String)>)
    ensures
        final(out)@ == old(out)@ + setup_head(*el, var@, root_id, names_view(names@)),
{
    let ghost o = out@;
    if !el.visible {
        out.append("\t");
        out.append(var);
        out.append(":SetVisible(false)\n");
    }
    let ghost o1 = out@;
    emit_placement(out, el, var, root_id, names);
    emit_clear_builtin_text(out, el, var);
    let ghost o2 = out@;
    if el.kind == ElementKind::Image {
        let mat = material_expr(el);
        out.append("\t");
        out.append(var);
        out.append(":SetMaterial(");
        out.append(mat.as_str());
        out.append(")\n");
    }
    let ghost o3 = out@;
    if el.kind == ElementKind::TextEntry {
        emit_text_entry_settings(out, el, var);
    }
    let ghost o4 = out@;
    if el.make_popup {
        out.append("\t");
        out.append(var);
        out.append(":MakePopup()\n");
    }
    let ghost o5 = out@;
    if el.close_on_escape {
        out.append("\t");
        out.append(var);
        out.append(".OnKeyCodeReleased = function(self, key)\n");
        out.append("\t\tif key == KEY_ESCAPE then self:Remove() end\n");
        out.append("\tend\n");
    }
    let ghost o6 = out@;
    if el.kind == ElementKind::Button && el.button_disabled {
        out.append("\t");
        out.append(var);
        out.append(":SetEnabled(false)\n");
    }
}

/// The `Paint` function of the element: the custom one when it needs one,
/// else the plain one when it paints a visible background, else none.
pub open spec fn paint(el: UiElement, var: Seq<char>) -> Seq<char> {
    if el.custom_paint() {
        combined_paint(el, var)
    } else if el.paint_background && el.bg_color@[3] > 0 {
        solid_paint(el, var)
    } else {
        Seq::empty()
    }
}

/// Everything the exporter writes to set up the element's panel held in
/// the local `var`: the head lines, the cached colours, the `Paint`
/// function, the click and hover code, and the close button when enabled.
#[verifier::opaque]
pub open spec fn element_setup(el: UiElement, var: Seq<char>, root_id: u128, names: Seq<(u128, Seq<char>)>) -> Seq<char> {
    setup_head(el, var, root_id, names)
        + cached_colors(el, var)
        + paint(el, var)
        + do_click(el, var)
        + on_hover(el, var)
        + (if el.close_button.enabled { close_button(el, var) } else { Seq::empty() })
}

/// Writes everything the exporter writes to set up the element's panel.
pub fn emit_element_setup(out: &mut String, el: &UiElement, var: &str, root_id: u128, names: &Vec<(u128, String)>)
    ensures
        final(out)@ == old(out)@ + element_setup(*el, var@, root_id, names_view(names@)),
{
    reveal(element_setup);
    emit_setup_head(out, el, var, root_id, names);
    emit_cached_ui_colors(out, el, var);
    let ghost o = out@;
    if el.uses_custom_paint() {
        emit_combined_paint(out, el, var);
    } else if el.paint_background && el.bg_color[3] > 0 {
        emit_solid_paint(out, el, var);
    }
    let ghost o1 = out@;
    emit_do_click(out, el, var);
    emit_on_hover(out, el, var);
    if el.close_button.enabled {
        emit_generated_close_button(out, el, var);
    }
}

/// The setup that the exporter writes for a docked element holds the line
/// that docks its local to the side its mode names, in capitals.
pub proof fn lemma_dock_in_setup(el: UiElement, var: Seq<char>, root_id: u128, names: Seq<(u128, Seq<char>)>)
    requires
        el.dock != DockMode::Undocked,
    ensures
        contains_text(
            element_setup(el, var, root_id, names),
            "\t"@ + var + ":Dock("@ + ascii_uppercase(dock_name(el.dock)) + ")\n"@,
        ),
{
    lemma_dock_line(el, var, root_id, names);
    let line = placement(el, var, root_id, names);
    let vis = if !el.visible { "\t"@ + var + ":SetVisible(false)\n"@ } else { Seq::<char>::empty() };
    let h1 = vis + line;
    lemma_contains_last(vis, line);
    let h2 = h1 + clear_builtin_text(el, var);
    lemma_contains_extended(h1, clear_builtin_text(el, var), line);
    let p3 = if el.kind is Image { "\t"@ + var + ":SetMaterial("@ + material_glua(el) + ")\n"@ } else { Seq::empty() };
    let h3 = h2 + p3;
    lemma_contains_extended(h2, p3, line);
    let p4 = if el.kind is TextEntry { text_entry_settings(el, var) } else { Seq::empty() };
    let h4 = h3 + p4;
    lemma_contains_extended(h3, p4, line);
    let p5 = if el.make_popup { "\t"@ + var + ":MakePopup()\n"@ } else { Seq::empty() };
    let h5 = h4 + p5;
    lemma_contains_extended(h4, p5, line);
    let p6 = if el.close_on_escape {
        "\t"@ + var + ".OnKeyCodeReleased = function(self, key)\n"@
            + "\t\tif key == KEY_ESCAPE then self:Remove() end\n"@ + "\tend\n"@
    } else {
        Seq::empty()
    };
    let h6 = h5 + p6;
    lemma_contains_extended(h5, p6, line);
    let p7 = if el.kind is Button && el.button_disabled { "\t"@ + var + ":SetEnabled(false)\n"@ } else { Seq::empty() };
    let head = h6 + p7;
    lemma_contains_extended(h6, p7, line);
    assert(head == setup_head(el, var, root_id, names));
    assert(head + cached_colors(el, var) + paint(el, var) + do_click(el, var) + on_hover(el, var)
        + (if el.close_button.enabled { close_button(el, var) } else { Seq::empty() })
        == element_setup(el, var, root_id, names)) by {
        reveal(element_setup);
    }
    let e1 = head + cached_colors(el, var);
    lemma_contains_extended(head, cached_colors(el, var), line);
    let e2 = e1 + paint(el, var);
    lemma_contains_extended(e1, paint(el, var), line);
    let e3 = e2 + do_click(el, var);
    lemma_contains_extended(e2, do_click(el, var), line);
    let e4 = e3 + on_hover(el, var);
    lemma_contains_extended(e3, on_hover(el, var), line);
    let cb = if el.close_button.enabled { close_button(el, var) } else { Seq::empty() };
    lemma_contains_extended(e4, cb, line);
}

} // verus!
