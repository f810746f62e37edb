//! The colours, `Paint` functions and texts that the exporter writes for an
//! element.

use vstd::prelude::*;
use vstd::string::*;
use crate::model::element::{BgImageMode, ElementKind, UiElement};
use crate::model::expr::{Measure, StrExpr, lua_string};
use crate::model::layer::{GradientDirection, ImageLayer, TextLayer};
use crate::text::{decimal, escape_lua, push_decimal, push_escaped};

verus! {

broadcast use crate::text::group_text;

/// `true` or `false`.
pub open spec fn lua_bool(v: bool) -> Seq<char> {
    if v { "true"@ } else { "false"@ }
}

/// `true` or `false`.
pub fn bool_lua(v: bool) -> (r: &'static str)
    ensures
        r@ == lua_bool(v),
{
    if v { "true" } else { "false" }
}

/// Whether the text is the empty literal, which the exporter draws not at all.
pub fn is_empty_text(text: &StrExpr) -> (r: bool)
    ensures
        r == text.is_empty_literal(),
{
    match text {
        StrExpr::Literal(s) => s.as_str().unicode_len() == 0,
        _ => false,
    }
}

/// The font that `draw.SimpleText` uses: `DermaDefault` when none is set,
/// else the name escaped for a Lua string.
pub open spec fn draw_font(name: Seq<char>) -> Seq<char> {
    if name.len() == 0 { "DermaDefault"@ } else { escape_lua(name) }
}

/// The font that `draw.SimpleText` uses.
pub fn font_for_draw(name: &str) -> (r: String)
    ensures
        r@ == draw_font(name@),
{
    if name.unicode_len() == 0 {
        String::from_str("DermaDefault")
    } else {
        crate::text::escape_lua_string(name)
    }
}

/// `Color(r, g, b, a)` of the colour.
pub open spec fn glua_color(c: Seq<u8>) -> Seq<char> {
    "Color("@ + decimal(c[0] as nat) + ", "@ + decimal(c[1] as nat) + ", "@ + decimal(c[2] as nat)
        + ", "@ + decimal(c[3] as nat) + ")"@
}

/// `Color(r, g, b, a)` of the colour.
pub fn color_glua(c: [u8; 4]) -> (r: String)
    ensures
        r@ == glua_color(c@),
{
    let mut r = String::from_str("Color(");
    push_decimal(&mut r, c[0] as u128);
    r.append(", ");
    push_decimal(&mut r, c[1] as u128);
    r.append(", ");
    push_decimal(&mut r, c[2] as u128);
    r.append(", ");
    push_decimal(&mut r, c[3] as u128);
    r.append(")");
    r
}

/// The line that caches a colour in a field of the panel: `\t<var>.<field> = Color(...)`.
pub open spec fn self_color(var: Seq<char>, field: Seq<char>, c: Seq<u8>) -> Seq<char> {
    "\t"@ + var + "."@ + field + " = "@ + glua_color(c) + "\n"@
}

/// Writes the line that caches a colour in a field of the panel.
pub fn emit_self_color(out: &mut String, var: &str, field: &str, c: [u8; 4])
    ensures
        final(out)@ == old(out)@ + self_color(var@, field@, c@),
{
    out.append("\t");
    out.append(var);
    out.append(".");
    out.append(field);
    out.append(" = ");
    let col = color_glua(c);
    out.append(col.as_str());
    out.append("\n");
}

/// The colour with its red, green and blue halved (rounded down): a
/// disabled button's colour.
pub open spec fn halved(c: Seq<u8>) -> Seq<u8> {
    seq![(c[0] / 2) as u8, (c[1] / 2) as u8, (c[2] / 2) as u8, c[3]]
}

fn halve(c: [u8; 4]) -> (r: [u8; 4])
    ensures
        r@ == halved(c@),
{
    let r = [c[0] / 2, c[1] / 2, c[2] / 2, c[3]];
    assert(r@ =~= halved(c@));
    r
}

/// Whether the element is a button whose colours change when it is
/// disabled, pressed or hovered.
pub open spec fn button_states(el: UiElement) -> bool {
    el.kind is Button && (el.button_hover_enabled || el.button_pressed_enabled || el.button_disabled)
}

/// Whether the element is a button whose colours change when it is
/// disabled, pressed or hovered.
pub fn button_text_states_enabled(el: &UiElement) -> (r: bool)
    ensures
        r == button_states(*el),
{
    el.kind == ElementKind::Button && (el.button_hover_enabled || el.button_pressed_enabled || el.button_disabled)
}

/// The field of a text layer's cached colour: `_UIText<i>`.
pub open spec fn text_field(i: nat) -> Seq<char> {
    "_UIText"@ + decimal(i)
}

/// The cached colours of the text layers before index `n`: each layer
/// with a text gets its colour in `_UIText<i>`.
pub open spec fn layer_colors(var: Seq<char>, layers: Seq<TextLayer>) -> Seq<char>
    decreases layers.len(),
{
    if layers.len() == 0 {
        Seq::empty()
    } else {
        let i = layers.len() - 1;
        layer_colors(var, layers.drop_last()) + if layers.last().text.is_empty_literal() {
            Seq::empty()
        } else {
            self_color(var, text_field(i as nat), layers.last().text_color@)
        }
    }
}

/// Whether the `Paint` function of an imaged panel draws a rounded frame in
/// the background colour over its material: the panel has a material, a
/// rounded corner and a visible background colour.
pub open spec fn rounds_imaged_frame(el: UiElement) -> bool {
    &&& el.kind is EditablePanelImaged
    &&& el.export_material_of().len() != 0
    &&& el.corner_radius.positive
    &&& el.bg_color@[3] > 0
}

/// The cached background colour, whenever the `Paint` function reads it:
/// when the background is painted, and for the rounded frame of an imaged
/// panel. Colours are made once at setup and `Paint` only reads the cached
/// fields, so the rounded frame of an imaged panel gets its colour cached
/// even when the panel does not paint its background; caching it only for
/// painted backgrounds would leave that frame reading an unset field.
pub open spec fn bg_colors(el: UiElement, var: Seq<char>) -> Seq<char> {
    if (el.paint_background && el.bg_color@[3] > 0) || rounds_imaged_frame(el) {
        self_color(var, "_UIBg"@, el.bg_color@)
    } else {
        Seq::empty()
    }
}

/// A button's cached disabled, hover and pressed backgrounds and, when its
/// colours change, its hover, pressed and disabled text colours.
pub open spec fn button_colors(el: UiElement, var: Seq<char>) -> Seq<char> {
    if el.kind is Button {
        (if el.button_disabled { self_color(var, "_UIBgDisabled"@, halved(el.bg_color@)) } else { Seq::empty() })
        + (if el.button_hover_enabled { self_color(var, "_UIBgHover"@, el.button_hover_bg@) } else { Seq::empty() })
        + (if el.button_pressed_enabled { self_color(var, "_UIBgPressed"@, el.button_pressed_bg@) } else { Seq::empty() })
        + (if button_states(el) {
            self_color(var, "_UITextHover"@, el.button_hover_text_color@)
            + self_color(var, "_UITextPressed"@, el.button_pressed_text_color@)
            + if el.button_disabled { self_color(var, "_UITextDisabled"@, halved(el.text_color@)) } else { Seq::empty() }
        } else {
            Seq::empty()
        })
    } else {
        Seq::empty()
    }
}

/// The cached text colours: of the text layers when there are any, else a
/// button's own text colour when it has a text.
pub open spec fn text_colors(el: UiElement, var: Seq<char>) -> Seq<char> {
    if el.text_layers@.len() != 0 {
        layer_colors(var, el.text_layers@)
    } else if el.kind is Button && !el.text.is_empty_literal() {
        self_color(var, "_UIText"@, el.text_color@)
    } else {
        Seq::empty()
    }
}

/// The number of bands a gradient is drawn in: its steps clamped to 4..=128.
pub open spec fn gradient_steps(steps: u32) -> u32 {
    if steps < 4 { 4 } else if steps > 128 { 128 } else { steps }
}

/// The cached colours of the gradient and its number of bands.
pub open spec fn gradient_colors(el: UiElement, var: Seq<char>) -> Seq<char> {
    if el.bg_gradient.enabled {
        self_color(var, "_UIGradStart"@, el.bg_gradient.color_start@)
        + self_color(var, "_UIGradEnd"@, el.bg_gradient.color_end@)
        + "\t"@ + var + "._UIGradSteps = "@ + decimal(gradient_steps(el.bg_gradient.steps) as nat) + "\n"@
    } else {
        Seq::empty()
    }
}

/// The colours that the exporter caches in fields of the panel once, for
/// its `Paint` function: background; a button's disabled, hover and
/// pressed backgrounds and text colours; the text colours; the gradient's
/// colours and its number of bands.
pub open spec fn cached_colors(el: UiElement, var: Seq<char>) -> Seq<char> {
    bg_colors(el, var) + button_colors(el, var) + text_colors(el, var) + gradient_colors(el, var)
}

fn emit_button_colors(out: &mut String, el: &UiElement, var: &str)
    ensures
        final(out)@ == old(out)@ + button_colors(*el, var@),
{
    if el.kind != ElementKind::Button {
        return;
    }
    let ghost o = out@;
    if el.button_disabled {
        emit_self_color(out, var, "_UIBgDisabled", halve(el.bg_color));
    }
    let ghost o1 = out@;
    assert(o1 == o + (if el.button_disabled { self_color(var@, "_UIBgDisabled"@, halved(el.bg_color@)) } else { Seq::empty() }));
    if el.button_hover_enabled {
        emit_self_color(out, var, "_UIBgHover", el.button_hover_bg);
    }
    let ghost o2 = out@;
    assert(o2 == o1 + (if el.button_hover_enabled { self_color(var@, "_UIBgHover"@, el.button_hover_bg@) } else { Seq::empty() }));
    if el.button_pressed_enabled {
        emit_self_color(out, var, "_UIBgPressed", el.button_pressed_bg);
    }
    let ghost o3 = out@;
    assert(o3 == o2 + (if el.button_pressed_enabled { self_color(var@, "_UIBgPressed"@, el.button_pressed_bg@) } else { Seq::empty() }));
    if button_text_states_enabled(el) {
        emit_self_color(out, var, "_UITextHover", el.button_hover_text_color);
        emit_self_color(out, var, "_UITextPressed", el.button_pressed_text_color);
        if el.button_disabled {
            emit_self_color(out, var, "_UITextDisabled", halve(el.text_color));
        }
    }
}

fn emit_gradient_colors(out: &mut String, el: &UiElement, var: &str)
    ensures
        final(out)@ == old(out)@ + gradient_colors(*el, var@),
{
    if el.bg_gradient.enabled {
        emit_self_color(out, var, "_UIGradStart", el.bg_gradient.color_start);
        emit_self_color(out, var, "_UIGradEnd", el.bg_gradient.color_end);
        let s = el.bg_gradient.steps;
        let steps: u32 = if s < 4 { 4 } else if s > 128 { 128 } else { s };
        out.append("\t");
        out.append(var);
        out.append("._UIGradSteps = ");
        push_decimal(out, steps as u128);
        out.append("\n");
    }
}

fn emit_text_colors(out: &mut String, el: &UiElement, var: &str)
    ensures
        final(out)@ == old(out)@ + text_colors(*el, var@),
{
    if el.text_layers.len() != 0 {
        emit_layer_colors(out, el, var);
    } else if el.kind == ElementKind::Button && !is_empty_text(&el.text) {
        emit_self_color(out, var, "_UIText", el.text_color);
    }
}

/// Writes the colours that the exporter caches in fields of the panel.
pub fn emit_cached_ui_colors(out: &mut String, el: &UiElement, var: &str)
    ensures
        final(out)@ == old(out)@ + cached_colors(*el, var@),
{
    let imaged_frame = el.kind == ElementKind::EditablePanelImaged
        && el.export_material_path().as_str().unicode_len() != 0
        && el.corner_radius.positive
        && el.bg_color[3] > 0;
    if (el.paint_background && el.bg_color[3] > 0) || imaged_frame {
        emit_self_color(out, var, "_UIBg", el.bg_color);
    }
    emit_button_colors(out, el, var);
    emit_text_colors(out, el, var);
    emit_gradient_colors(out, el, var);
}

fn emit_layer_colors(out: &mut String, el: &UiElement, var: &str)
    ensures
        final(out)@ == old(out)@ + layer_colors(var@, el.text_layers@),
{
    let n = el.text_layers.len();
    let mut i: usize = 0;
    while i < n
        invariant
            n == el.text_layers@.len(),
            i <= n,
            out@ == old(out)@ + layer_colors(var@, el.text_layers@.subrange(0, i as int)),
        decreases n - i,
    {
        let layer = &el.text_layers[i];
        assert(el.text_layers@.subrange(0, i + 1).drop_last() =~= el.text_layers@.subrange(0, i as int));
        if !is_empty_text(&layer.text) {
            let mut field = String::from_str("_UIText");
            push_decimal(&mut field, i as u128);
            emit_self_color(out, var, field.as_str(), layer.text_color);
        }
        i = i + 1;
    }
    assert(el.text_layers@.subrange(0, n as int) =~= el.text_layers@);
}

/// `<indent>draw.RoundedBox(<radius>, 0, 0, w, h, self._UIBg)`.
pub open spec fn rounded_box_self(radius: Measure, indent: Seq<char>) -> Seq<char> {
    indent + "draw.RoundedBox("@ + radius.whole@ + ", 0, 0, w, h, self._UIBg)\n"@
}

/// Writes `draw.RoundedBox` of the cached background.
pub fn emit_rounded_box_self(out: &mut String, radius: &Measure, indent: &str)
    ensures
        final(out)@ == old(out)@ + rounded_box_self(*radius, indent@),
{
    out.append(indent);
    out.append("draw.RoundedBox(");
    out.append(radius.whole.as_str());
    out.append(", 0, 0, w, h, self._UIBg)\n");
}

/// The enabled branches, as condition and source.
pub open spec fn active_branches(branches: Seq<(bool, Seq<char>, Seq<char>)>) -> Seq<(Seq<char>, Seq<char>)>
    decreases branches.len(),
{
    if branches.len() == 0 {
        Seq::empty()
    } else {
        let rest = active_branches(branches.drop_last());
        if branches.last().0 { rest.push((branches.last().1, branches.last().2)) } else { rest }
    }
}

/// The `if`/`elseif` lines of the branches: the first `if`, the others
/// `elseif`, each followed by the assignment of its source to `target`.
pub open spec fn chain_lines(indent: Seq<char>, act: Seq<(Seq<char>, Seq<char>)>, target: Seq<char>) -> Seq<char>
    decreases act.len(),
{
    if act.len() == 0 {
        Seq::empty()
    } else {
        chain_lines(indent, act.drop_last(), target) + indent
            + (if act.len() == 1 { "if"@ } else { "elseif"@ }) + " "@ + act.last().0 + " then\n"@
            + indent + "\t"@ + target + " = "@ + act.last().1 + "\n"@
    }
}

/// The `if ... elseif ... end` that assigns to `target` the source of the
/// first enabled branch whose condition holds; nothing when no branch is
/// enabled.
pub open spec fn if_chain(indent: Seq<char>, branches: Seq<(bool, Seq<char>, Seq<char>)>, target: Seq<char>) -> Seq<char> {
    let act = active_branches(branches);
    if act.len() == 0 {
        Seq::empty()
    } else {
        chain_lines(indent, act, target) + indent + "end\n"@
    }
}

/// The branches as text.
pub open spec fn branch_texts(branches: Seq<(bool, &str, &str)>) -> Seq<(bool, Seq<char>, Seq<char>)> {
    branches.map_values(|b: (bool, &str, &str)| (b.0, b.1@, b.2@))
}

/// Writes the `if ... elseif ... end` that picks a cached colour.
pub fn emit_self_color_if_chain(out: &mut String, indent: &str, branches: &[(bool, &str, &str)], target: &str)
    ensures
        final(out)@ == old(out)@ + if_chain(indent@, branch_texts(branches@), target@),
{
    let n = branches.len();
    let mut i: usize = 0;
    let mut count: usize = 0;
    let ghost o = out@;
    while i < n
        invariant
            n == branches@.len(),
            i <= n,
            count == active_branches(branch_texts(branches@.subrange(0, i as int))).len(),
            count <= i,
            out@ == o + chain_lines(indent@, active_branches(branch_texts(branches@.subrange(0, i as int))), target@),
        decreases n - i,
    {
        let (enabled, cond, src) = branches[i];
        let ghost prefix = branch_texts(branches@.subrange(0, i as int));
        assert(branch_texts(branches@.subrange(0, i + 1)).drop_last() =~= prefix);
        assert(branch_texts(branches@.subrange(0, i + 1)).last() == (enabled, cond@, src@));
        let ghost act = active_branches(prefix);
        let ghost next_act = active_branches(branch_texts(branches@.subrange(0, i + 1)));
        if enabled {
            assert(next_act == act.push((cond@, src@)));
            assert(next_act.drop_last() =~= act);
            assert(chain_lines(indent@, next_act, target@) == chain_lines(indent@, act, target@) + indent@
                + (if next_act.len() == 1 { "if"@ } else { "elseif"@ }) + " "@ + cond@ + " then
"@
                + indent@ + "	"@ + target@ + " = "@ + src@ + "
"@);
            out.append(indent);
            if count == 0 {
                out.append("if");
            } else {
                out.append("elseif");
            }
            out.append(" ");
            out.append(cond);
            out.append(" then\n");
            out.append(indent);
            out.append("\t");
            out.append(target);
            out.append(" = ");
            out.append(src);
            out.append("\n");
            count = count + 1;
        } else {
            assert(next_act == act);
        }
        i = i + 1;
    }
    assert(branches@.subrange(0, n as int) =~= branches@);
    if count > 0 {
        out.append(indent);
        out.append("end\n");
    }
}

/// The branches that pick a button's cached background: disabled, pressed,
/// hovered.
pub open spec fn bg_branches(el: UiElement) -> Seq<(bool, Seq<char>, Seq<char>)> {
    seq![
        (el.button_disabled, "not self:IsEnabled()"@, "self._UIBgDisabled"@),
        (el.button_pressed_enabled, "self:IsDown()"@, "self._UIBgPressed"@),
        (el.button_hover_enabled, "self:IsHovered() and not self:IsDown()"@, "self._UIBgHover"@),
    ]
}

/// The branches that pick a button's cached text colour: disabled,
/// pressed, hovered.
pub open spec fn text_branches(el: UiElement) -> Seq<(bool, Seq<char>, Seq<char>)> {
    seq![
        (el.button_disabled, "not self:IsEnabled()"@, "self._UITextDisabled"@),
        (el.button_pressed_enabled, "self:IsDown()"@, "self._UITextPressed"@),
        (el.button_hover_enabled, "self:IsHovered() and not self:IsDown()"@, "self._UITextHover"@),
    ]
}

/// The `Paint` lines that draw a button's background in the colour of its
/// state.
pub open spec fn pick_bg(el: UiElement) -> Seq<char> {
    "\t\tlocal col = self._UIBg\n"@ + if_chain("\t\t"@, bg_branches(el), "col"@)
        + "\t\tdraw.RoundedBox("@ + el.corner_radius.whole@ + ", 0, 0, w, h, col)\n"@
}

/// Writes the `Paint` lines that draw a button's background in the colour
/// of its state.
pub fn emit_pick_self_bg_color(out: &mut String, el: &UiElement)
    ensures
        final(out)@ == old(out)@ + pick_bg(*el),
{
    out.append("\t\tlocal col = self._UIBg\n");
    let branches: [(bool, &str, &str); 3] = [
        (el.button_disabled, "not self:IsEnabled()", "self._UIBgDisabled"),
        (el.button_pressed_enabled, "self:IsDown()", "self._UIBgPressed"),
        (el.button_hover_enabled, "self:IsHovered() and not self:IsDown()", "self._UIBgHover"),
    ];
    assert(branch_texts(branches@) =~= bg_branches(*el));
    emit_self_color_if_chain(out, "\t\t", branches.as_slice(), "col");
    out.append("\t\tdraw.RoundedBox(");
    out.append(el.corner_radius.whole.as_str());
    out.append(", 0, 0, w, h, col)\n");
}

/// The lines that pick a button's text colour into `textCol`, starting from
/// the cached `base_field`; nothing when its colours do not change.
pub open spec fn pick_text(el: UiElement, base_field: Seq<char>, indent: Seq<char>) -> Seq<char> {
    if !button_states(el) {
        Seq::empty()
    } else {
        indent + "local textCol = self."@ + base_field + "\n"@ + if_chain(indent, text_branches(el), "textCol"@)
    }
}

/// Writes the lines that pick a button's text colour into `textCol`.
pub fn emit_pick_self_text_color(out: &mut String, el: &UiElement, base_field: &str, indent: &str)
    ensures
        final(out)@ == old(out)@ + pick_text(*el, base_field@, indent@),
{
    if !button_text_states_enabled(el) {
        return;
    }
    out.append(indent);
    out.append("local textCol = self.");
    out.append(base_field);
    out.append("\n");
    let branches: [(bool, &str, &str); 3] = [
        (el.button_disabled, "not self:IsEnabled()", "self._UITextDisabled"),
        (el.button_pressed_enabled, "self:IsDown()", "self._UITextPressed"),
        (el.button_hover_enabled, "self:IsHovered() and not self:IsDown()", "self._UITextHover"),
    ];
    assert(branch_texts(branches@) =~= text_branches(*el));
    emit_self_color_if_chain(out, indent, branches.as_slice(), "textCol");
}

/// The `Paint` lines that draw the gradient in its bands.
pub open spec fn gradient_body(el: UiElement) -> Seq<char> {
    "\t\tlocal steps = self._UIGradSteps\n"@
        + "\t\tlocal gs, ge = self._UIGradStart, self._UIGradEnd\n"@
        + "\t\tfor i = 0, steps do\n"@
        + "\t\t\tlocal t = i / steps\n"@
        + "\t\t\tlocal r = Lerp(t, gs.r, ge.r)\n"@
        + "\t\t\tlocal g = Lerp(t, gs.g, ge.g)\n"@
        + "\t\t\tlocal b = Lerp(t, gs.b, ge.b)\n"@
        + "\t\t\tlocal a = Lerp(t, gs.a, ge.a)\n"@
        + "\t\t\tsurface.SetDrawColor(r, g, b, a)\n"@
        + (match el.bg_gradient.direction {
            GradientDirection::Vertical => "\t\t\tsurface.DrawRect(0, h * t, w, h / steps + 1)\n"@,
            GradientDirection::Horizontal => "\t\t\tsurface.DrawRect(w * t, 0, w / steps + 1, h)\n"@,
        })
        + "\t\tend\n"@
}

/// Writes the `Paint` lines that draw the gradient.
pub fn emit_gradient_paint_body(out: &mut String, el: &UiElement)
    ensures
        final(out)@ == old(out)@ + gradient_body(*el),
{
    out.append("\t\tlocal steps = self._UIGradSteps\n");
    out.append("\t\tlocal gs, ge = self._UIGradStart, self._UIGradEnd\n");
    out.append("\t\tfor i = 0, steps do\n");
    out.append("\t\t\tlocal t = i / steps\n");
    out.append("\t\t\tlocal r = Lerp(t, gs.r, ge.r)\n");
    out.append("\t\t\tlocal g = Lerp(t, gs.g, ge.g)\n");
    out.append("\t\t\tlocal b = Lerp(t, gs.b, ge.b)\n");
    out.append("\t\t\tlocal a = Lerp(t, gs.a, ge.a)\n");
    out.append("\t\t\tsurface.SetDrawColor(r, g, b, a)\n");
    match el.bg_gradient.direction {
        GradientDirection::Vertical => out.append("\t\t\tsurface.DrawRect(0, h * t, w, h / steps + 1)\n"),
        GradientDirection::Horizontal => out.append("\t\t\tsurface.DrawRect(w * t, 0, w / steps + 1, h)\n"),
    }
    out.append("\t\tend\n");
}

/// The `Paint` lines that draw a text layer (nothing for an empty text):
/// in the colour of the button's state inside a `do ... end` block when the
/// colours change, else in its cached colour `_UIText<i>`.
pub open spec fn text_layer_paint(el: UiElement, layer: TextLayer, i: nat) -> Seq<char> {
    if layer.text.is_empty_literal() {
        Seq::empty()
    } else {
        let field = text_field(i);
        let tail = ", \""@ + draw_font(layer.font_name@) + "\", "@ + layer.x.glua_in_parent() + ", "@
            + layer.y.glua_in_parent() + ", "@;
        if button_states(el) {
            "\t\tdo\n"@ + pick_text(el, field, "\t\t\t"@)
                + "\t\t\tdraw.SimpleText("@ + layer.text.glua() + tail + "textCol, "@
                + layer.align.glua_const_of() + ")\n"@ + "\t\tend\n"@
        } else {
            "\t\tdraw.SimpleText("@ + layer.text.glua() + tail + "self."@ + field + ", "@
                + layer.align.glua_const_of() + ")\n"@
        }
    }
}

/// Writes the `Paint` lines that draw a text layer.
pub fn emit_text_layer_in_paint(out: &mut String, el: &UiElement, layer: &TextLayer, layer_index: usize)
    ensures
        final(out)@ == old(out)@ + text_layer_paint(*el, *layer, layer_index as nat),
{
    if is_empty_text(&layer.text) {
        return;
    }
    let text = layer.text.to_glua();
    let mut field = String::from_str("_UIText");
    push_decimal(&mut field, layer_index as u128);
    let font = font_for_draw(layer.font_name.as_str());
    let x = layer.x.to_glua_in_parent();
    let y = layer.y.to_glua_in_parent();
    let ghost tail = ", \""@ + draw_font(layer.font_name@) + "\", "@ + layer.x.glua_in_parent() + ", "@
        + layer.y.glua_in_parent() + ", "@;
    if button_text_states_enabled(el) {
        out.append("\t\tdo\n");
        emit_pick_self_text_color(out, el, field.as_str(), "\t\t\t");
        out.append("\t\t\tdraw.SimpleText(");
        out.append(text.as_str());
        let ghost o = out@;
        out.append(", \"");
        out.append(font.as_str());
        out.append("\", ");
        out.append(x.as_str());
        out.append(", ");
        out.append(y.as_str());
        out.append(", ");
        assert(out@ == o + tail);
        out.append("textCol, ");
        out.append(layer.align.glua_const());
        out.append(")\n");
        out.append("\t\tend\n");
    } else {
        out.append("\t\tdraw.SimpleText(");
        out.append(text.as_str());
        let ghost o = out@;
        out.append(", \"");
        out.append(font.as_str());
        out.append("\", ");
        out.append(x.as_str());
        out.append(", ");
        out.append(y.as_str());
        out.append(", ");
        assert(out@ == o + tail);
        out.append("self.");
        out.append(field.as_str());
        out.append(", ");
        out.append(layer.align.glua_const());
        out.append(")\n");
    }
}

/// The `Paint` lines of the text layers, in order.
pub open spec fn text_layers_paint(el: UiElement, layers: Seq<TextLayer>) -> Seq<char>
    decreases layers.len(),
{
    if layers.len() == 0 {
        Seq::empty()
    } else {
        text_layers_paint(el, layers.drop_last()) + text_layer_paint(el, layers.last(), (layers.len() - 1) as nat)
    }
}

fn emit_text_layers_in_paint(out: &mut String, el: &UiElement)
    ensures
        final(out)@ == old(out)@ + text_layers_paint(*el, el.text_layers@),
{
    let n = el.text_layers.len();
    let mut i: usize = 0;
    while i < n
        invariant
            n == el.text_layers@.len(),
            i <= n,
            out@ == old(out)@ + text_layers_paint(*el, el.text_layers@.subrange(0, i as int)),
        decreases n - i,
    {
        assert(el.text_layers@.subrange(0, i + 1).drop_last() =~= el.text_layers@.subrange(0, i as int));
        emit_text_layer_in_paint(out, el, &el.text_layers[i], i);
        i = i + 1;
    }
    assert(el.text_layers@.subrange(0, n as int) =~= el.text_layers@);
}

/// The `Paint` lines that draw a button's own text centred, when it has
/// no text layers and its text is not empty.
pub open spec fn builtin_text_paint(el: UiElement) -> Seq<char> {
    if !(el.kind is Button) || el.text_layers@.len() != 0 || el.text.is_empty_literal() {
        Seq::empty()
    } else {
        let head = "draw.SimpleText("@ + el.text.glua() + ", \""@ + draw_font(el.font_name@) + "\", w / 2, h / 2, "@;
        if button_states(el) {
            "\t\tdo\n"@ + pick_text(el, "_UIText"@, "\t\t\t"@) + "\t\t\t"@ + head
                + "textCol, TEXT_ALIGN_CENTER)\n"@ + "\t\tend\n"@
        } else {
            "\t\t"@ + head + "self._UIText, TEXT_ALIGN_CENTER)\n"@
        }
    }
}

/// Writes the `Paint` lines that draw a button's own text.
pub fn emit_button_builtin_text_in_paint(out: &mut String, el: &UiElement)
    ensures
        final(out)@ == old(out)@ + builtin_text_paint(*el),
{
    if el.kind != ElementKind::Button || el.text_layers.len() != 0 {
        return;
    }
    if is_empty_text(&el.text) {
        return;
    }
    let text = el.text.to_glua();
    let font = font_for_draw(el.font_name.as_str());
    let ghost head = "draw.SimpleText("@ + el.text.glua() + ", \""@ + draw_font(el.font_name@) + "\", w / 2, h / 2, "@;
    if button_text_states_enabled(el) {
        out.append("\t\tdo\n");
        emit_pick_self_text_color(out, el, "_UIText", "\t\t\t");
        out.append("\t\t\t");
        let ghost o = out@;
        out.append("draw.SimpleText(");
        out.append(text.as_str());
        out.append(", \"");
        out.append(font.as_str());
        out.append("\", w / 2, h / 2, ");
        assert(out@ == o + head);
        out.append("textCol, TEXT_ALIGN_CENTER)\n");
        out.append("\t\tend\n");
    } else {
        out.append("\t\t");
        let ghost o = out@;
        out.append("draw.SimpleText(");
        out.append(text.as_str());
        out.append(", \"");
        out.append(font.as_str());
        out.append("\", w / 2, h / 2, ");
        assert(out@ == o + head);
        out.append("self._UIText, TEXT_ALIGN_CENTER)\n");
    }
}

/// The `Paint` lines of a button in a plain painted panel: its text layers,
/// then its own text.
pub open spec fn button_text_paint(el: UiElement) -> Seq<char> {
    text_layers_paint(el, el.text_layers@) + builtin_text_paint(el)
}

/// Writes the `Paint` lines of a button's texts.
pub fn emit_button_text_in_paint(out: &mut String, el: &UiElement)
    ensures
        final(out)@ == old(out)@ + button_text_paint(*el),
{
    emit_text_layers_in_paint(out, el);
    emit_button_builtin_text_in_paint(out, el);
}

/// The `Paint` lines that draw an imaged panel's background material:
/// stretched, tiled in squares of its tile size, or scaled to cover the
/// panel (stretched when the material has no size), at its alpha.
pub open spec fn imaged_body(el: UiElement) -> Seq<char> {
    let start = "\t\tsurface.SetDrawColor(255, 255, 255, "@ + decimal(el.bg_image_alpha as nat) + ")\n"@
        + "\t\tsurface.SetMaterial(self.BgMat)\n"@;
    start + match el.bg_image_mode {
        BgImageMode::Stretch => "\t\tsurface.DrawTexturedRect(0, 0, w, h)\n"@,
        BgImageMode::Tile => "\t\tlocal tw, th = "@ + decimal(el.bg_image_tile_size as nat) + ", "@
            + decimal(el.bg_image_tile_size as nat) + "\n"@
            + "\t\tfor x = 0, w, tw do\n"@
            + "\t\t\tfor y = 0, h, th do\n"@
            + "\t\t\t\tsurface.DrawTexturedRect(x, y, tw, th)\n"@
            + "\t\t\tend\n"@
            + "\t\tend\n"@,
        BgImageMode::Cover => "\t\tlocal mw, mh = self.BgMat:Width(), self.BgMat:Height()\n"@
            + "\t\tif mw > 0 and mh > 0 then\n"@
            + "\t\t\tlocal scale = math.max(w / mw, h / mh)\n"@
            + "\t\t\tlocal dw, dh = mw * scale, mh * scale\n"@
            + "\t\t\tsurface.DrawTexturedRect((w - dw) / 2, (h - dh) / 2, dw, dh)\n"@
            + "\t\telse\n"@
            + "\t\t\tsurface.DrawTexturedRect(0, 0, w, h)\n"@
            + "\t\tend\n"@,
    }
}

/// Writes the `Paint` lines that draw an imaged panel's background material.
pub fn emit_imaged_paint_body(out: &mut String, el: &UiElement)
    ensures
        final(out)@ == old(out)@ + imaged_body(*el),
{
    let ghost o = out@;
    out.append("\t\tsurface.SetDrawColor(255, 255, 255, ");
    push_decimal(out, el.bg_image_alpha as u128);
    out.append(")\n");
    out.append("\t\tsurface.SetMaterial(self.BgMat)\n");
    let ghost o1 = out@;
    match el.bg_image_mode {
        BgImageMode::Stretch => {
            out.append("\t\tsurface.DrawTexturedRect(0, 0, w, h)\n");
        },
        BgImageMode::Tile => {
            out.append("\t\tlocal tw, th = ");
            push_decimal(out, el.bg_image_tile_size as u128);
            out.append(", ");
            push_decimal(out, el.bg_image_tile_size as u128);
            out.append("\n");
            out.append("\t\tfor x = 0, w, tw do\n");
            out.append("\t\t\tfor y = 0, h, th do\n");
            out.append("\t\t\t\tsurface.DrawTexturedRect(x, y, tw, th)\n");
            out.append("\t\t\tend\n");
            out.append("\t\tend\n");
        },
        BgImageMode::Cover => {
            out.append("\t\tlocal mw, mh = self.BgMat:Width(), self.BgMat:Height()\n");
            out.append("\t\tif mw > 0 and mh > 0 then\n");
            out.append("\t\t\tlocal scale = math.max(w / mw, h / mh)\n");
            out.append("\t\t\tlocal dw, dh = mw * scale, mh * scale\n");
            out.append("\t\t\tsurface.DrawTexturedRect((w - dw) / 2, (h - dh) / 2, dw, dh)\n");
            out.append("\t\telse\n");
            out.append("\t\t\tsurface.DrawTexturedRect(0, 0, w, h)\n");
            out.append("\t\tend\n");
        },
    }
}

/// The `Paint` lines that draw an image layer with a material at its
/// alpha, position and size (nothing for a layer without material).
pub open spec fn image_layer_paint(layer: ImageLayer) -> Seq<char> {
    let mat = layer.export_material_of();
    if mat.len() == 0 {
        Seq::empty()
    } else {
        "\t\tsurface.SetDrawColor(255, 255, 255, "@ + decimal(layer.alpha as nat) + ")\n"@
            + "\t\tsurface.SetMaterial(Material(\""@ + escape_lua(mat) + "\"))\n"@
            + "\t\tsurface.DrawTexturedRect("@ + layer.x.glua_in_parent() + ", "@ + layer.y.glua_in_parent()
            + ", "@ + layer.w.glua_in_parent() + ", "@ + layer.h.glua_in_parent() + ")\n"@
    }
}

/// The `Paint` lines of the image layers, in order.
pub open spec fn image_layers_paint(layers: Seq<ImageLayer>) -> Seq<char>
    decreases layers.len(),
{
    if layers.len() == 0 {
        Seq::empty()
    } else {
        image_layers_paint(layers.drop_last()) + image_layer_paint(layers.last())
    }
}

fn emit_image_layer_in_paint(out: &mut String, layer: &ImageLayer)
    ensures
        final(out)@ == old(out)@ + image_layer_paint(*layer),
{
    let mat = layer.export_material();
    if mat.as_str().unicode_len() == 0 {
        return;
    }
    out.append("\t\tsurface.SetDrawColor(255, 255, 255, ");
    push_decimal(out, layer.alpha as u128);
    out.append(")\n");
    out.append("\t\tsurface.SetMaterial(Material(\"");
    push_escaped(out, mat.as_str());
    out.append("\"))\n");
    let x = layer.x.to_glua_in_parent();
    let y = layer.y.to_glua_in_parent();
    let w = layer.w.to_glua_in_parent();
    let h = layer.h.to_glua_in_parent();
    out.append("\t\tsurface.DrawTexturedRect(");
    out.append(x.as_str());
    out.append(", ");
    out.append(y.as_str());
    out.append(", ");
    out.append(w.as_str());
    out.append(", ");
    out.append(h.as_str());
    out.append(")\n");
}

fn emit_image_layers_in_paint(out: &mut String, el: &UiElement)
    ensures
        final(out)@ == old(out)@ + image_layers_paint(el.image_layers@),
{
    let n = el.image_layers.len();
    let mut i: usize = 0;
    while i < n
        invariant
            n == el.image_layers@.len(),
            i <= n,
            out@ == old(out)@ + image_layers_paint(el.image_layers@.subrange(0, i as int)),
        decreases n - i,
    {
        assert(el.image_layers@.subrange(0, i + 1).drop_last() =~= el.image_layers@.subrange(0, i as int));
        emit_image_layer_in_paint(out, &el.image_layers[i]);
        i = i + 1;
    }
    assert(el.image_layers@.subrange(0, n as int) =~= el.image_layers@);
}

/// The background lines of a custom `Paint`: the gradient when enabled;
/// else, for a painted background on a panel that is not imaged, the
/// button's state colour or the rounded cached background.
pub open spec fn combined_background(el: UiElement, imaged: bool) -> Seq<char> {
    if el.bg_gradient.enabled {
        gradient_body(el)
    } else if el.paint_background && el.bg_color@[3] > 0 && !imaged {
        if el.kind is Button && (el.button_hover_enabled || el.button_pressed_enabled || el.button_disabled) {
            pick_bg(el)
        } else {
            rounded_box_self(el.corner_radius, "\t\t"@)
        }
    } else {
        Seq::empty()
    }
}

/// The custom `Paint` function of an element: an imaged panel's material
/// (loaded once into `BgMat`), the background, a rounded frame of the
/// background over a rounded imaged panel, the image layers, the text
/// layers, and a button's own text.
pub open spec fn combined_paint(el: UiElement, var: Seq<char>) -> Seq<char> {
    let mat = el.export_material_of();
    let imaged = el.kind is EditablePanelImaged && mat.len() != 0;
    (if imaged { "\t"@ + var + ".BgMat = Material(\""@ + escape_lua(mat) + "\")\n"@ } else { Seq::empty() })
        + "\t"@ + var + ".Paint = function(self, w, h)\n"@
        + (if imaged { imaged_body(el) } else { Seq::empty() })
        + combined_background(el, imaged)
        + (if rounds_imaged_frame(el) {
            "\t\tdraw.RoundedBox("@ + el.corner_radius.whole@ + ", 0, 0, w, h, self._UIBg)\n"@
        } else {
            Seq::empty()
        })
        + image_layers_paint(el.image_layers@)
        + text_layers_paint(el, el.text_layers@)
        + (if el.kind is Button { builtin_text_paint(el) } else { Seq::empty() })
        + "\tend\n"@
}

fn emit_combined_background(out: &mut String, el: &UiElement, imaged: bool)
    ensures
        final(out)@ == old(out)@ + combined_background(*el, imaged),
{
    if el.bg_gradient.enabled {
        emit_gradient_paint_body(out, el);
    } else if el.paint_background && el.bg_color[3] > 0 && !imaged {
        if el.kind == ElementKind::Button
            && (el.button_hover_enabled || el.button_pressed_enabled || el.button_disabled) {
            emit_pick_self_bg_color(out, el);
        } else {
            emit_rounded_box_self(out, &el.corner_radius, "\t\t");
        }
    }
}

/// Writes the custom `Paint` function of an element.
pub fn emit_combined_paint(out: &mut String, el: &UiElement, var: &str)
    ensures
        final(out)@ == old(out)@ + combined_paint(*el, var@),
{
    let mat_path = el.export_material_path();
    let is_imaged = el.kind == ElementKind::EditablePanelImaged && mat_path.as_str().unicode_len() != 0;
    let ghost o = out@;
    if is_imaged {
        out.append("\t");
        out.append(var);
        out.append(".BgMat = Material(\"");
        push_escaped(out, mat_path.as_str());
        out.append("\")\n");
    }
    let ghost o1 = out@;
    out.append("\t");
    out.append(var);
    out.append(".Paint = function(self, w, h)\n");
    let ghost o2 = out@;
    if is_imaged {
        emit_imaged_paint_body(out, el);
    }
    let ghost o3 = out@;
    emit_combined_background(out, el, is_imaged);
    let ghost o4 = out@;
    if is_imaged && el.corner_radius.positive && el.bg_color[3] > 0 {
        out.append("\t\tdraw.RoundedBox(");
        out.append(el.corner_radius.whole.as_str());
        out.append(", 0, 0, w, h, self._UIBg)\n");
    }
    let ghost o5 = out@;
    emit_image_layers_in_paint(out, el);
    emit_text_layers_in_paint(out, el);
    if el.kind == ElementKind::Button {
        emit_button_builtin_text_in_paint(out, el);
    }
    out.append("\tend\n");
}

/// The plain `Paint` function of an element that paints its background
/// without anything custom (none for a text entry): a button's state
/// colour or the rounded cached background, and a button's texts.
pub open spec fn solid_paint(el: UiElement, var: Seq<char>) -> Seq<char> {
    if el.kind is TextEntry {
        Seq::empty()
    } else {
        "\t"@ + var + ".Paint = function(self, w, h)\n"@
            + (if el.kind is Button && (el.button_hover_enabled || el.button_pressed_enabled || el.button_disabled) {
                pick_bg(el)
            } else {
                rounded_box_self(el.corner_radius, "\t\t"@)
            })
            + (if el.kind is Button { button_text_paint(el) } else { Seq::empty() })
            + "\tend\n"@
    }
}

/// Writes the plain `Paint` function of an element.
pub fn emit_solid_paint(out: &mut String, el: &UiElement, var: &str)
    ensures
        final(out)@ == old(out)@ + solid_paint(*el, var@),
{
    if el.kind == ElementKind::TextEntry {
        return;
    }
    out.append("\t");
    out.append(var);
    out.append(".Paint = function(self, w, h)\n");
    let ghost o = out@;
    if el.kind == ElementKind::Button
        && (el.button_hover_enabled || el.button_pressed_enabled || el.button_disabled) {
        emit_pick_self_bg_color(out, el);
    } else {
        emit_rounded_box_self(out, &el.corner_radius, "\t\t");
    }
    let ghost o1 = out@;
    if el.kind == ElementKind::Button {
        emit_button_text_in_paint(out, el);
    }
    out.append("\tend\n");
}

/// The material of an image element: its export material, or the
/// `icon16/picture.png` placeholder when it has none.
pub open spec fn material_glua(el: UiElement) -> Seq<char> {
    let path = el.export_material_of();
    if path.len() == 0 {
        "Material(\"icon16/picture.png\")"@
    } else {
        "Material(\""@ + escape_lua(path) + "\")"@
    }
}

/// The material of an image element.
pub fn material_expr(el: &UiElement) -> (r: String)
    ensures
        r@ == material_glua(*el),
{
    let path = el.export_material_path();
    if path.as_str().unicode_len() == 0 {
        String::from_str("Material(\"icon16/picture.png\")")
    } else {
        let mut r = String::from_str("Material(\"");
        push_escaped(&mut r, path.as_str());
        r.append("\")");
        r
    }
}

} // verus!
