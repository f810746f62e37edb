//! Names that the properties panel shows.

use vstd::prelude::*;
use vstd::string::*;
use crate::ids::is_random_uuid;
use crate::model::element::{DockMode, UiElement};
use crate::model::layer::{ImageLayer, TextLayer};
use crate::text::{decimal, push_decimal};
use crate::model::expr::Num;
use crate::model::project::{Project, first_index, ids_of};
use crate::ui::EditorUi;

verus! {

/// The properties panel's name of a dock mode.
pub open spec fn dock_name(mode: DockMode) -> Seq<char> {
    match mode {
        DockMode::Undocked => "Нет"@,
        DockMode::Fill => "Fill"@,
        DockMode::Top => "Top"@,
        DockMode::Bottom => "Bottom"@,
        DockMode::Left => "Left"@,
        DockMode::Right => "Right"@,
    }
}

/// The properties panel's name of a dock mode.
pub fn dock_label(mode: DockMode) -> (r: &'static str)
    ensures
        r@ == dock_name(mode),
{
    match mode {
        DockMode::Undocked => "Нет",
        DockMode::Fill => "Fill",
        DockMode::Top => "Top",
        DockMode::Bottom => "Bottom",
        DockMode::Left => "Left",
        DockMode::Right => "Right",
    }
}

/// Paints the primary selected element's background in a palette colour,
/// after a checkpoint; does nothing when nothing is selected.
pub fn apply_palette_color(editor: &mut EditorUi, project: &mut Project, color: [u8; 4])
    ensures
        old(editor).selection@.len() == 0 ==> *final(project) == *old(project)
            && final(editor).history@ == old(editor).history@,
        old(editor).selection@.len() > 0 ==> {
            let sel = old(editor).selection@.last();
            &&& final(editor).history@ == old(editor).history@.checkpointed(old(project)@)
            &&& match first_index(ids_of(old(project).elements@), sel) {
                Some(i) => final(project).elements@ == old(project).elements@.update(
                    i,
                    UiElement { bg_color: color, ..old(project).elements@[i] },
                ),
                None => final(project).elements@ == old(project).elements@,
            }
            &&& final(project).root_id == old(project).root_id
            &&& final(project).name == old(project).name
        },
        final(editor).selection@ == old(editor).selection@,
        *final(editor) == (EditorUi { history: final(editor).history, ..*old(editor) }),
        old(project).same_settings(*final(project)),
{
    if let Some(sel) = editor.primary() {
        editor.history.checkpoint(project);
        if let Some(el) = project.element_mut(sel) {
            el.bg_color = color;
        }
    }
}

/// The properties panel's copy button: after a checkpoint, a copy of the
/// primary selected element at `x` (see `Project::duplicate_element`),
/// which then is the only one selected. Nothing is done when the root or
/// nothing is selected.
pub fn duplicate_selected(editor: &mut EditorUi, project: &mut Project, x: Num) -> (r: Option<u128>)
    ensures
        (old(editor).selection@.len() == 0 || old(editor).selection@.last() == old(project).root_id) ==> {
            &&& r is None
            &&& *final(project) == *old(project)
            &&& final(editor).history@ == old(editor).history@
            &&& final(editor).selection@ == old(editor).selection@
        },
        (old(editor).selection@.len() > 0 && old(editor).selection@.last() != old(project).root_id) ==> {
            let sel = old(editor).selection@.last();
            &&& final(editor).history@ == old(editor).history@.checkpointed(old(project)@)
            &&& (r is Some <==> (old(project).lookup(sel) matches Some(e) && e.parent is Some))
            &&& r is None ==> *final(project) == *old(project) && final(editor).selection@ == old(editor).selection@
            &&& r matches Some(nid) ==> {
                &&& final(project).elements@.drop_last() == old(project).elements@
                &&& final(project).elements@.last().id == nid
                &&& Project::is_duplicate(final(project).elements@.last(), old(project).lookup(sel)->0, x)
                &&& final(editor).selection@ == seq![nid]
                &&& final(editor).selected_sub_layer is None
            }
        },
        *final(editor) == (EditorUi {
            selection: final(editor).selection,
            selected_sub_layer: final(editor).selected_sub_layer,
            history: final(editor).history,
            ..*old(editor)
        }),
        old(project).same_settings(*final(project)),
{
    let sel = match editor.primary() {
        Some(s) => s,
        None => return None,
    };
    if sel == project.root_id {
        return None;
    }
    editor.history.checkpoint(project);
    let r = project.duplicate_element(sel, x);
    if let Some(nid) = r {
        editor.select_single(nid);
    }
    r
}

/// Adds a new last text layer `Текст_<n>`, n its number among the text
/// layers, and returns its id; the rest of the element stays as it is.
pub fn add_text_layer(el: &mut UiElement) -> (r: u128)
    ensures
        final(el).text_layers@.len() == old(el).text_layers@.len() + 1,
        final(el).text_layers@.drop_last() == old(el).text_layers@,
        final(el).text_layers@.last().id == r,
        is_random_uuid(r),
        final(el).text_layers@.last().name@ == "Текст_"@ + decimal(old(el).text_layers@.len() + 1),
        final(el).text_layers@.last().text.is_empty_literal(),
        final(el)@.fields == old(el)@.fields,
        final(el).image_layers@ == old(el).image_layers@,
{
    let mut name = String::from_str("Текст_");
    push_decimal(&mut name, el.text_layers.len() as u128 + 1);
    let layer = TextLayer::new(name.as_str());
    let id = layer.id;
    el.text_layers.push(layer);
    id
}

/// Adds a new last image layer `Картинка_<n>`, n its number among the image
/// layers, and returns its id; the rest of the element stays as it is.
pub fn add_image_layer(el: &mut UiElement) -> (r: u128)
    ensures
        final(el).image_layers@.len() == old(el).image_layers@.len() + 1,
        final(el).image_layers@.drop_last() == old(el).image_layers@,
        final(el).image_layers@.last().id == r,
        is_random_uuid(r),
        final(el).image_layers@.last().name@ == "Картинка_"@ + decimal(old(el).image_layers@.len() + 1),
        final(el).image_layers@.last().local_image_path@.len() == 0,
        final(el).image_layers@.last().material_path@.len() == 0,
        final(el)@.fields == old(el)@.fields,
        final(el).text_layers@ == old(el).text_layers@,
{
    let mut name = String::from_str("Картинка_");
    push_decimal(&mut name, el.image_layers.len() as u128 + 1);
    let layer = ImageLayer::new(name.as_str());
    let id = layer.id;
    el.image_layers.push(layer);
    id
}

/// Removes the text layer at `idx`; no layer stays selected.
pub fn remove_text_layer(editor: &mut EditorUi, el: &mut UiElement, idx: usize)
    requires
        idx < old(el).text_layers@.len(),
    ensures
        final(el).text_layers@ == old(el).text_layers@.remove(idx as int),
        final(el)@.fields == old(el)@.fields,
        final(el).image_layers@ == old(el).image_layers@,
        final(editor).selected_sub_layer is None,
        final(editor).selection@ == old(editor).selection@,
        final(editor).history@ == old(editor).history@,
        *final(editor) == (EditorUi { selected_sub_layer: None, ..*old(editor) }),
{
    el.text_layers.remove(idx);
    editor.selected_sub_layer = None;
}

/// Removes the image layer at `idx`; no layer stays selected.
pub fn remove_image_layer(editor: &mut EditorUi, el: &mut UiElement, idx: usize)
    requires
        idx < old(el).image_layers@.len(),
    ensures
        final(el).image_layers@ == old(el).image_layers@.remove(idx as int),
        final(el)@.fields == old(el)@.fields,
        final(el).text_layers@ == old(el).text_layers@,
        final(editor).selected_sub_layer is None,
        final(editor).selection@ == old(editor).selection@,
        final(editor).history@ == old(editor).history@,
        *final(editor) == (EditorUi { selected_sub_layer: None, ..*old(editor) }),
{
    el.image_layers.remove(idx);
    editor.selected_sub_layer = None;
}

} // verus!
