//! What the canvas shows of a button in the states a preview can put it in.

use vstd::prelude::*;
use vstd::string::*;
use crate::ids::is_random_uuid;
use crate::model::element::{DockMode, ElementKind, UiElement};
use crate::model::layer::ImageLayer;
use crate::model::project::{Project, first_index, ids_of};
use crate::paths::material_for;
use crate::text::{decimal, push_decimal};
use crate::ui::{EditorUi, SubLayerRef};

verus! {

/// The colour halved in brightness, alpha kept: a disabled button.
pub open spec fn dimmed(c: Seq<u8>) -> Seq<u8> {
    seq![c[0] / 2, c[1] / 2, c[2] / 2, c[3]]
}

/// The colour `base` as the preview shows it on the element: a disabled
/// button dims it, a pressed or hovered button with that state enabled
/// shows that state's colour (pressed first), and anything else keeps it.
pub open spec fn preview_color(el: UiElement, base: Seq<u8>, hovered_color: Seq<u8>, pressed_color: Seq<u8>, hovered: bool, pressed: bool) -> Seq<u8> {
    if el.kind != ElementKind::Button {
        base
    } else if el.button_disabled {
        dimmed(base)
    } else if pressed && el.button_pressed_enabled {
        pressed_color
    } else if hovered && el.button_hover_enabled {
        hovered_color
    } else {
        base
    }
}

/// What the preview shows of a colour in each state: anything but a button
/// keeps it; a disabled button halves its red, green and blue and keeps its
/// alpha; otherwise a press with the pressed state enabled shows the pressed
/// colour, else a hover with the hover state enabled shows the hover colour,
/// and in every other case (a state that is switched off among them) the
/// colour itself.
pub proof fn lemma_preview_states(el: UiElement, base: Seq<u8>, hovered_color: Seq<u8>, pressed_color: Seq<u8>, hovered: bool, pressed: bool)
    ensures
        el.kind != ElementKind::Button ==> preview_color(el, base, hovered_color, pressed_color, hovered, pressed) == base,
        el.kind == ElementKind::Button && el.button_disabled
            ==> preview_color(el, base, hovered_color, pressed_color, hovered, pressed) == seq![base[0] / 2, base[1] / 2, base[2] / 2, base[3]],
        el.kind == ElementKind::Button && !el.button_disabled && pressed && el.button_pressed_enabled
            ==> preview_color(el, base, hovered_color, pressed_color, hovered, pressed) == pressed_color,
        el.kind == ElementKind::Button && !el.button_disabled && !(pressed && el.button_pressed_enabled)
            && hovered && el.button_hover_enabled ==> preview_color(el, base, hovered_color, pressed_color, hovered, pressed) == hovered_color,
        el.kind == ElementKind::Button && !el.button_disabled && !(pressed && el.button_pressed_enabled)
            && !(hovered && el.button_hover_enabled) ==> preview_color(el, base, hovered_color, pressed_color, hovered, pressed) == base,
{
}

fn dim(c: [u8; 4]) -> (r: [u8; 4])
    ensures
        r@ == dimmed(c@),
{
    let r = [c[0] / 2, c[1] / 2, c[2] / 2, c[3]];
    assert(r@ =~= dimmed(c@));
    r
}

/// The background colour the canvas draws for the element.
pub fn button_preview_color(el: &UiElement, hovered: bool, pressed: bool) -> (r: [u8; 4])
    ensures
        r@ == preview_color(*el, el.bg_color@, el.button_hover_bg@, el.button_pressed_bg@, hovered, pressed),
        el.kind != ElementKind::Button ==> r@ == el.bg_color@,
        el.kind == ElementKind::Button && el.button_disabled
            ==> r@ == seq![el.bg_color@[0] / 2, el.bg_color@[1] / 2, el.bg_color@[2] / 2, el.bg_color@[3]],
        el.kind == ElementKind::Button && !el.button_disabled && pressed && el.button_pressed_enabled
            ==> r@ == el.button_pressed_bg@,
        el.kind == ElementKind::Button && !el.button_disabled && !(pressed && el.button_pressed_enabled)
            && hovered && el.button_hover_enabled ==> r@ == el.button_hover_bg@,
        el.kind == ElementKind::Button && !el.button_disabled && !(pressed && el.button_pressed_enabled)
            && !(hovered && el.button_hover_enabled) ==> r@ == el.bg_color@,
{
    if el.kind != ElementKind::Button {
        return el.bg_color;
    }
    if el.button_disabled {
        return dim(el.bg_color);
    }
    if pressed && el.button_pressed_enabled {
        return el.button_pressed_bg;
    }
    if hovered && el.button_hover_enabled {
        return el.button_hover_bg;
    }
    el.bg_color
}

/// The text colour the canvas draws for the element's text of colour
/// `base`.
pub fn button_preview_text_color(el: &UiElement, base: [u8; 4], hovered: bool, pressed: bool) -> (r: [u8; 4])
    ensures
        r@ == preview_color(*el, base@, el.button_hover_text_color@, el.button_pressed_text_color@, hovered, pressed),
        el.kind != ElementKind::Button ==> r@ == base@,
        el.kind == ElementKind::Button && el.button_disabled
            ==> r@ == seq![base@[0] / 2, base@[1] / 2, base@[2] / 2, base@[3]],
        el.kind == ElementKind::Button && !el.button_disabled && pressed && el.button_pressed_enabled
            ==> r@ == el.button_pressed_text_color@,
        el.kind == ElementKind::Button && !el.button_disabled && !(pressed && el.button_pressed_enabled)
            && hovered && el.button_hover_enabled ==> r@ == el.button_hover_text_color@,
        el.kind == ElementKind::Button && !el.button_disabled && !(pressed && el.button_pressed_enabled)
            && !(hovered && el.button_hover_enabled) ==> r@ == base@,
{
    if el.kind != ElementKind::Button {
        return base;
    }
    if el.button_disabled {
        return dim(base);
    }
    if pressed && el.button_pressed_enabled {
        return el.button_pressed_text_color;
    }
    if hovered && el.button_hover_enabled {
        return el.button_hover_text_color;
    }
    base
}

/// Whether the editor may move the element by dragging, resizing or the
/// arrow keys: it is neither locked nor docked.
pub fn movable(el: &UiElement) -> (r: bool)
    ensures
        r == (!el.locked && el.dock == DockMode::Undocked),
{
    !el.locked && el.dock == DockMode::Undocked
}

/// Whether `e2` is the image `e` showing the dropped file at `path` (see
/// `UiElement::assign_local_image`).
pub open spec fn image_dropped(e: UiElement, e2: UiElement, path: Seq<char>) -> bool {
    &&& e2.local_image_path@ == path
    &&& e2.image_path@ == (if e.image_path@.len() == 0 { material_for(path) } else { e.image_path@ })
    &&& e2.bg_image_material@ == e.bg_image_material@
    &&& e2@ == (UiElement {
        local_image_path: e2.local_image_path,
        image_path: e2.image_path,
        bg_image_material: e2.bg_image_material,
        ..e
    })@
}

/// Whether `e2` is `e` with a new last image layer `layer_id` named
/// `Картинка_<n>` (n its number among the image layers) that shows the
/// dropped file at `path` at 0, 0 in 64 by 64, opaque.
pub open spec fn layer_dropped(e: UiElement, e2: UiElement, path: Seq<char>, layer_id: u128) -> bool {
    let layer = e2.image_layers@.last();
    &&& e2@.fields == e@.fields
    &&& e2@.text_layers == e@.text_layers
    &&& e2.image_layers@.len() == e.image_layers@.len() + 1
    &&& e2.image_layers@.drop_last() == e.image_layers@
    &&& layer.id == layer_id
    &&& is_random_uuid(layer.id)
    &&& layer.name@ == "Картинка_"@ + decimal(e.image_layers@.len() + 1)
    &&& layer.local_image_path@ == path
    &&& layer.material_path@ == material_for(path)
    &&& layer.x.is_fixed(0, "0"@)
    &&& layer.y.is_fixed(0, "0"@)
    &&& layer.w.is_fixed(0x42800000, "64"@)
    &&& layer.h.is_fixed(0x42800000, "64"@)
    &&& layer.alpha == 255
}

fn add_dropped_layer(el: &mut UiElement, path: &str) -> (r: u128)
    ensures
        layer_dropped(*old(el), *final(el), path@, r),
{
    let mut name = String::from_str("Картинка_");
    push_decimal(&mut name, el.image_layers.len() as u128 + 1);
    let mut layer = ImageLayer::new(name.as_str());
    layer.assign_local_image(String::from_str(path));
    let layer_id = layer.id;
    let ghost before = *el;
    el.image_layers.push(layer);
    assert(el.image_layers@.drop_last() =~= before.image_layers@);
    assert(el@.fields == before@.fields);
    layer_id
}

/// What an image file dropped on the element `id` does: an image shows the
/// file (see `image_dropped`); a kind with layers gets a new last image
/// layer showing the file (see `layer_dropped`), and that layer is
/// selected; either way the element is then the only one selected. Tells
/// whether the drop was taken; other kinds, and missing elements, leave
/// everything as it is for what lies below.
pub fn drop_image_on_element(editor: &mut EditorUi, project: &mut Project, id: u128, path: &str) -> (r: bool)
    ensures
        match old(project).lookup(id) {
            Some(e) if e.kind is Image || e.kind.layered() => {
                let i = first_index(ids_of(old(project).elements@), id)->0;
                let e2 = final(project).elements@[i];
                &&& r
                &&& final(project).elements@ == old(project).elements@.update(i, e2)
                &&& final(editor).selection@ == seq![id]
                &&& if e.kind is Image {
                    &&& image_dropped(e, e2, path@)
                    &&& final(editor).selected_sub_layer is None
                } else {
                    &&& layer_dropped(e, e2, path@, e2.image_layers@.last().id)
                    &&& final(editor).selected_sub_layer == Some(SubLayerRef::Image(e2.image_layers@.last().id))
                }
            },
            _ => !r && *final(project) == *old(project) && *final(editor) == *old(editor),
        },
        *final(editor) == (EditorUi {
            selection: final(editor).selection,
            selected_sub_layer: final(editor).selected_sub_layer,
            ..*old(editor)
        }),
        old(project).same_settings(*final(project)),
{
    let kind = match project.element(id) {
        Some(e) => e.kind,
        None => return false,
    };
    if kind == ElementKind::Image {
        if let Some(el) = project.element_mut(id) {
            el.assign_local_image(String::from_str(path));
        }
        editor.select_single(id);
        return true;
    }
    if kind.supports_image_layers() {
        if let Some(el) = project.element_mut(id) {
            let layer_id = add_dropped_layer(el, path);
            editor.select_single(id);
            editor.selected_sub_layer = Some(SubLayerRef::Image(layer_id));
        }
        return true;
    }
    false
}

} // verus!
