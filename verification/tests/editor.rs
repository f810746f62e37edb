use lua_interface_interpretator::model::{DockMode, ElementKind, ImageLayer, Num, NumExpr, Project, UiElement};
use lua_interface_interpretator::ui::canvas::{button_preview_color, button_preview_text_color, drop_image_on_element, movable};
use lua_interface_interpretator::ui::hierarchy::{apply_pending_reorder, click_node, finish_drag, row_shown, text_contains};
use lua_interface_interpretator::ui::input::{shortcut, Keys, Shortcut};
use lua_interface_interpretator::ui::properties::{
    add_image_layer, add_text_layer, apply_palette_color, dock_label, duplicate_selected, remove_image_layer,
    remove_text_layer,
};
use lua_interface_interpretator::ui::scripts::{finish, open_for, prepare};
use lua_interface_interpretator::ui::toolbar::sanitize_filename;
use lua_interface_interpretator::ui::{element_name_for, flatten_hierarchy, truncate_path, EditorUi, SubLayerRef};

fn tree() -> (Project, u128, u128, u128, u128) {
    let mut p = Project::default();
    let root = p.root_id;
    let a = p.add_element(UiElement::new(ElementKind::Panel, "a"), root);
    let b = p.add_element(UiElement::new(ElementKind::Panel, "b"), root);
    let a1 = p.add_element(UiElement::new(ElementKind::Button, "a1"), a);
    (p, root, a, b, a1)
}

fn no_keys() -> Keys {
    Keys {
        z: false,
        y: false,
        delete: false,
        backspace: false,
        left: false,
        right: false,
        up: false,
        down: false,
        ctrl: false,
        shift: false,
    }
}

#[test]
fn selection_primary_is_last_selected() {
    let mut editor = EditorUi::default();
    assert_eq!(editor.primary(), None);
    editor.select_single(5);
    editor.toggle_selection(7);
    assert_eq!(editor.primary(), Some(7));
    assert!(editor.is_selected(5));
    editor.toggle_selection(5);
    assert_eq!(editor.selection, vec![7]);
    assert!(!editor.is_selected(5));
}

#[test]
fn select_range_follows_hierarchy_order() {
    let (p, root, a, b, a1) = tree();
    let mut editor = EditorUi::default();
    assert_eq!(flatten_hierarchy(&p, root), vec![root, a, a1, b]);
    editor.select_range(&p, b, a);
    assert_eq!(editor.selection, vec![a, a1, b]);
    editor.select_range(&p, 12345, a1);
    assert_eq!(editor.selection, vec![a1]);
}

#[test]
fn click_node_with_modifiers() {
    let (p, _root, a, b, a1) = tree();
    let mut editor = EditorUi::default();
    editor.selected_sub_layer = Some(SubLayerRef::Text(9));
    click_node(&mut editor, &p, a, false, false);
    assert_eq!(editor.selection, vec![a]);
    assert_eq!(editor.selected_sub_layer, None);
    click_node(&mut editor, &p, b, false, true);
    assert_eq!(editor.selection, vec![a, a1, b]);
    click_node(&mut editor, &p, a1, true, false);
    assert_eq!(editor.selection, vec![a, b]);
}

#[test]
fn sync_selection_drops_missing_and_falls_back_to_root() {
    let (p, root, a, _b, _a1) = tree();
    let mut editor = EditorUi::default();
    editor.selection = vec![999, a, 1000];
    editor.sync_selection_after_project_change(&p);
    assert_eq!(editor.selection, vec![a]);
    editor.selection = vec![999];
    editor.scripts_target = Some(999);
    editor.show_scripts_window = true;
    editor.scripts_checkpointed = Some(999);
    editor.sync_selection_after_project_change(&p);
    assert_eq!(editor.selection, vec![root]);
    assert_eq!(editor.scripts_target, None);
    assert!(!editor.show_scripts_window);
    assert_eq!(editor.scripts_checkpointed, None);
}

#[test]
fn drag_checkpoints_once_per_drag() {
    let (p, ..) = tree();
    let mut editor = EditorUi::default();
    editor.checkpoint_if_drag_start(&p, true);
    editor.checkpoint_if_drag_start(&p, true);
    editor.checkpoint_if_drag_start(&p, false);
    editor.checkpoint_if_drag_start(&p, true);
    let mut q = p.clone();
    assert!(editor.history.undo(&mut q));
    assert!(editor.history.undo(&mut q));
    assert!(!editor.history.undo(&mut q));
}

#[test]
fn delete_selection_removes_subtrees_but_not_root() {
    let (mut p, root, a, b, _a1) = tree();
    let mut editor = EditorUi::default();
    editor.selection = vec![root];
    editor.delete_selection(&mut p);
    assert_eq!(p.elements.len(), 4);
    assert!(!editor.history.can_undo());
    editor.selection = vec![root, a];
    editor.delete_selection(&mut p);
    assert_eq!(p.elements.iter().map(|e| e.id).collect::<Vec<_>>(), vec![root, b]);
    assert_eq!(editor.selection, vec![root]);
    assert!(editor.history.can_undo());
    let before = p.elements.len();
    assert!(editor.undo_edit(&mut p));
    assert_eq!(p.elements.len(), before + 2);
    assert_eq!(editor.selection, vec![root]);
    assert!(editor.redo_edit(&mut p));
    assert_eq!(p.elements.len(), before);
}

#[test]
fn pending_add_names_element_from_label() {
    let (mut p, root, a, ..) = tree();
    let mut editor = EditorUi::default();
    editor.pending_add_kind = Some(ElementKind::TextEntry);
    editor.apply_pending_add(&mut p);
    let added = p.elements.last().unwrap();
    assert_eq!(added.name, "TextEntry_4");
    assert_eq!(added.parent, Some(root));
    assert_eq!(editor.selection, vec![added.id]);
    assert_eq!(editor.pending_add_kind, None);
    editor.selection = vec![a];
    editor.pending_add_kind = Some(ElementKind::EditablePanelImaged);
    editor.apply_pending_add(&mut p);
    let added = p.elements.last().unwrap();
    assert_eq!(added.name, "EditablePanel(imaged)_5");
    assert_eq!(added.parent, Some(a));
    assert!(editor.history.can_undo());
}

#[test]
fn element_names_for_each_kind() {
    assert_eq!(element_name_for(ElementKind::Panel, 1), "Panel_1");
    assert_eq!(element_name_for(ElementKind::Frame, 12), "Frame_12");
    assert_eq!(element_name_for(ElementKind::Button, 0), "Button_0");
    assert_eq!(element_name_for(ElementKind::EditablePanel, 3), "EditablePanel_3");
    assert_eq!(element_name_for(ElementKind::Image, 7), "Image_7");
}

#[test]
fn pending_close_button_added_under_primary() {
    let (mut p, _root, a, ..) = tree();
    let mut editor = EditorUi::default();
    editor.selection = vec![a];
    editor.pending_close_button = true;
    editor.apply_pending_close_button(&mut p, Num::new(0x43540000, "172"));
    let added = p.elements.last().unwrap();
    assert_eq!(added.name, "CloseBtn_4");
    assert_eq!(added.parent, Some(a));
    assert_eq!(added.kind, ElementKind::Button);
    assert_eq!(editor.selection, vec![added.id]);
    assert!(!editor.pending_close_button);
    let n = p.elements.len();
    editor.apply_pending_close_button(&mut p, Num::new(0, "0"));
    assert_eq!(p.elements.len(), n);
}

#[test]
fn reorder_from_hierarchy_swaps_siblings() {
    let (mut p, _root, a, b, _a1) = tree();
    let mut editor = EditorUi::default();
    apply_pending_reorder(&mut editor, &mut p, Some((b, -1)));
    let order: Vec<u128> = p.elements.iter().map(|e| e.id).collect();
    assert_eq!(order[1], b);
    assert_eq!(order[2], a);
    assert!(editor.history.can_undo());
    apply_pending_reorder(&mut editor, &mut p, None);
}

#[test]
fn drop_on_hierarchy_moves_before_target() {
    let (mut p, _root, a, b, _a1) = tree();
    let mut editor = EditorUi::default();
    editor.hierarchy_drag_id = Some(b);
    finish_drag(&mut editor, &mut p, false, Some(a));
    assert_eq!(editor.hierarchy_drag_id, Some(b));
    finish_drag(&mut editor, &mut p, true, Some(a));
    assert_eq!(editor.hierarchy_drag_id, None);
    let order: Vec<u128> = p.elements.iter().map(|e| e.id).collect();
    assert_eq!(order[1], b);
    assert_eq!(order[2], a);
    editor.hierarchy_drag_id = Some(b);
    finish_drag(&mut editor, &mut p, true, None);
    assert_eq!(editor.hierarchy_drag_id, None);
}

#[test]
fn scripts_window_checkpoints_once() {
    let (p, _root, a, ..) = tree();
    let mut editor = EditorUi::default();
    assert_eq!(prepare(&mut editor, &p), None);
    assert!(!editor.show_scripts_window);
    open_for(&mut editor, a);
    assert_eq!(prepare(&mut editor, &p), Some(a));
    assert_eq!(prepare(&mut editor, &p), Some(a));
    assert!(editor.history.can_undo());
    let mut q = p.clone();
    assert!(editor.history.undo(&mut q));
    assert!(!editor.history.undo(&mut q));
    finish(&mut editor, false);
    assert_eq!(editor.scripts_target, None);
    open_for(&mut editor, 4242);
    assert_eq!(prepare(&mut editor, &p), None);
    assert!(!editor.show_scripts_window);
}

#[test]
fn palette_color_paints_primary() {
    let (mut p, _root, a, ..) = tree();
    let mut editor = EditorUi::default();
    apply_palette_color(&mut editor, &mut p, [1, 2, 3, 4]);
    assert!(!editor.history.can_undo());
    editor.selection = vec![a];
    apply_palette_color(&mut editor, &mut p, [1, 2, 3, 4]);
    assert_eq!(p.element(a).unwrap().bg_color, [1, 2, 3, 4]);
}

#[test]
fn duplicate_selected_copies_and_selects() {
    let (mut p, root, a, ..) = tree();
    let mut editor = EditorUi::default();
    editor.selection = vec![root];
    assert_eq!(duplicate_selected(&mut editor, &mut p, Num::new(0, "0")), None);
    editor.selection = vec![a];
    let copy = duplicate_selected(&mut editor, &mut p, Num::new(0x41a00000, "20")).unwrap();
    let el = p.element(copy).unwrap();
    assert_eq!(el.name, "a_copy");
    assert_eq!(el.x, NumExpr::Fixed(Num::new(0x41a00000, "20")));
    assert_eq!(editor.selection, vec![copy]);
}

#[test]
fn image_drop_on_image_and_layered_panel() {
    let mut p = Project::default();
    let root = p.root_id;
    let img = p.add_element(UiElement::new(ElementKind::Image, "img"), root);
    let panel = p.add_element(UiElement::new(ElementKind::Panel, "panel"), root);
    let entry = p.add_element(UiElement::new(ElementKind::TextEntry, "entry"), root);
    let mut editor = EditorUi::default();
    assert!(drop_image_on_element(&mut editor, &mut p, img, "/pics/cat.png"));
    let e = p.element(img).unwrap();
    assert_eq!(e.local_image_path, "/pics/cat.png");
    assert_eq!(e.image_path, "materials/cat.png");
    assert!(drop_image_on_element(&mut editor, &mut p, panel, "/pics/dog.jpg"));
    let e = p.element(panel).unwrap();
    assert_eq!(e.image_layers.len(), 1);
    let layer: &ImageLayer = &e.image_layers[0];
    assert_eq!(layer.name, "Картинка_1");
    assert_eq!(layer.material_path, "materials/dog.jpg");
    assert_eq!(editor.selected_sub_layer, Some(SubLayerRef::Image(layer.id)));
    assert!(!drop_image_on_element(&mut editor, &mut p, entry, "/pics/dog.jpg"));
    assert!(!drop_image_on_element(&mut editor, &mut p, 77, "/pics/dog.jpg"));
}

#[test]
fn button_preview_colors_follow_state() {
    let mut el = UiElement::new(ElementKind::Button, "b");
    el.bg_color = [100, 50, 20, 200];
    el.button_hover_enabled = true;
    assert_eq!(button_preview_color(&el, true, false), el.button_hover_bg);
    assert_eq!(button_preview_color(&el, false, true), [100, 50, 20, 200]);
    el.button_pressed_enabled = true;
    assert_eq!(button_preview_color(&el, true, true), el.button_pressed_bg);
    el.button_disabled = true;
    assert_eq!(button_preview_color(&el, true, true), [50, 25, 10, 200]);
    assert_eq!(button_preview_text_color(&el, [9, 9, 9, 9], false, false), [4, 4, 4, 9]);
    let panel = UiElement::new(ElementKind::Panel, "p");
    assert_eq!(button_preview_color(&panel, true, true), panel.bg_color);
    assert_eq!(button_preview_text_color(&panel, [1, 2, 3, 4], true, true), [1, 2, 3, 4]);
}

#[test]
fn shortcuts_map_keys_to_edits() {
    let mut k = no_keys();
    k.z = true;
    k.ctrl = true;
    assert_eq!(shortcut(k), Shortcut::Undo);
    k.shift = true;
    assert_eq!(shortcut(k), Shortcut::Redo);
    let mut k = no_keys();
    k.delete = true;
    assert_eq!(shortcut(k), Shortcut::Delete);
    k.ctrl = true;
    assert_eq!(shortcut(k), Shortcut::Nothing);
    let mut k = no_keys();
    k.left = true;
    k.down = true;
    k.shift = true;
    assert_eq!(shortcut(k), Shortcut::Nudge { dx: -10, dy: 10 });
    assert_eq!(shortcut(no_keys()), Shortcut::Nothing);
}

#[test]
fn dock_labels() {
    assert_eq!(dock_label(DockMode::Undocked), "Нет");
    assert_eq!(dock_label(DockMode::Fill), "Fill");
    assert_eq!(dock_label(DockMode::Right), "Right");
}

#[test]
fn filenames_are_sanitized() {
    assert_eq!(sanitize_filename("Мой проект-1_a"), "__________-1_a");
    assert_eq!(sanitize_filename("ok"), "ok");
}

#[test]
fn long_paths_are_truncated() {
    assert_eq!(truncate_path("/short/path.png"), "/short/path.png");
    let long = "/very/long/directory/name/that/goes/on/and/on/picture.png";
    assert_eq!(truncate_path(long), format!("...{}", &long[long.len() - 37..]));
    assert_eq!(truncate_path(&"a".repeat(40)), "a".repeat(40));
}

#[test]
fn layers_are_added_named_and_removed() {
    let mut el = UiElement::new(ElementKind::Panel, "p");
    let t1 = add_text_layer(&mut el);
    let t2 = add_text_layer(&mut el);
    assert_eq!(el.text_layers[0].id, t1);
    assert_eq!(el.text_layers[1].name, "Текст_2");
    let i1 = add_image_layer(&mut el);
    assert_eq!(el.image_layers[0].name, "Картинка_1");
    assert_eq!(el.image_layers[0].id, i1);
    let mut editor = EditorUi::default();
    editor.selected_sub_layer = Some(SubLayerRef::Text(t2));
    remove_text_layer(&mut editor, &mut el, 0);
    assert_eq!(el.text_layers.len(), 1);
    assert_eq!(el.text_layers[0].id, t2);
    assert_eq!(editor.selected_sub_layer, None);
    remove_image_layer(&mut editor, &mut el, 0);
    assert!(el.image_layers.is_empty());
}

#[test]
fn hierarchy_search_matches_lowercased_rows() {
    assert!(row_shown("Main", "DPanel", ""));
    assert!(row_shown("Main", "DPanel", "MAIN"));
    assert!(row_shown("Main", "DPanel", "in dp"));
    assert!(row_shown("Кнопка", "DButton", "кноп"));
    assert!(!row_shown("Main", "DPanel", "frame"));
    assert!(text_contains("abcabd", "abd"));
    assert!(text_contains("abc", ""));
    assert!(!text_contains("ab", "abc"));
    assert!(!text_contains("abcabc", "cb"));
}

#[test]
fn locked_or_docked_elements_do_not_move() {
    let mut el = UiElement::new(ElementKind::Panel, "p");
    assert!(movable(&el));
    el.locked = true;
    assert!(!movable(&el));
    el.locked = false;
    el.dock = DockMode::Fill;
    assert!(!movable(&el));
}

#[test]
fn edits_leave_other_editor_state_alone() {
    let (mut p, _root, a, ..) = tree();
    let mut editor = EditorUi::default();
    editor.canvas_bg_path = "/bg.png".to_string();
    editor.pending_close_button = true;
    editor.pending_add_kind = Some(ElementKind::Panel);
    editor.apply_pending_add(&mut p);
    assert!(editor.pending_close_button);
    assert_eq!(editor.canvas_bg_path, "/bg.png");
    assert!(drop_image_on_element(&mut editor, &mut p, a, "/x.png"));
    assert_eq!(editor.canvas_bg_path, "/bg.png");
    assert!(editor.pending_close_button);
}

#[test]
fn a_long_drag_checkpoints_once_and_rearms() {
    let (mut p, ..) = tree();
    let mut editor = EditorUi::default();
    for i in 0..5 {
        p.name = format!("frame {i}");
        editor.checkpoint_if_drag_start(&p, true);
    }
    editor.checkpoint_if_drag_start(&p, false);
    p.name = "second".to_string();
    editor.checkpoint_if_drag_start(&p, true);
    let mut q = p.clone();
    assert!(editor.history.undo(&mut q));
    assert_eq!(q.name, "second");
    assert!(editor.history.undo(&mut q));
    assert_eq!(q.name, "frame 0");
    assert!(!editor.history.undo(&mut q));
}
