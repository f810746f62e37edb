use lua_interface_interpretator::model::element::{default_bg, default_close_text, default_paint_background};
use lua_interface_interpretator::model::expr::format_lua_string;
use lua_interface_interpretator::model::layer::{default_grad_end, default_grad_start, default_grad_steps};
use lua_interface_interpretator::model::project::{collect_descendants, default_color_palette};
use lua_interface_interpretator::model::{
    reorder_layer, BgImageMode, ElementKind, GradientDirection, ImageLayer, Num, NumAxis, NumExpr, Project, StrExpr,
    TextAlign, TextLayer, UiElement,
};

fn ids(p: &Project) -> Vec<u128> {
    p.elements.iter().map(|e| e.id).collect()
}

#[test]
fn default_project_has_one_root_panel() {
    let p = Project::default();
    assert_eq!(p.name, "Новый интерфейс");
    assert_eq!((p.screen_w, p.screen_h), (1920, 1080));
    assert_eq!(p.elements.len(), 1);
    let root = &p.elements[0];
    assert_eq!(root.id, p.root_id);
    assert_eq!(root.name, "RootPanel");
    assert_eq!(root.kind, ElementKind::EditablePanel);
    assert_eq!(root.parent, None);
    assert_eq!(root.w, NumExpr::ScrW);
    assert_eq!(root.h, NumExpr::ScrH);
    assert!(!root.paint_background);
    assert_eq!(p.color_palette, default_color_palette());
}

#[test]
fn new_ids_are_random_v4_and_distinct() {
    let a = Project::default().root_id;
    let b = Project::default().root_id;
    assert_ne!(a, b);
    assert_eq!((a >> 76) & 0xf, 4);
    assert_eq!((a >> 62) & 0x3, 2);
}

#[test]
fn new_element_defaults_by_kind() {
    let b = UiElement::new(ElementKind::Button, "b");
    assert_eq!(b.name, "b");
    assert_eq!(b.x, NumExpr::Fixed(Num::new(0x41200000, "10")));
    assert_eq!(b.w, NumExpr::Fixed(Num::new(0x42f00000, "120")));
    assert_eq!(b.h, NumExpr::Fixed(Num::new(0x42000000, "32")));
    assert!(b.clickable);
    assert_eq!(b.bg_image_mode, BgImageMode::Stretch);
    let img = UiElement::new(ElementKind::Image, "i");
    assert_eq!(img.w, NumExpr::Fixed(Num::new(0x43000000, "128")));
    assert!(!img.clickable);
    assert_eq!(default_bg(ElementKind::Button), b.bg_color);
    assert_eq!(default_paint_background(ElementKind::Button), b.paint_background);
    assert_eq!(default_close_text(), "x");
}

#[test]
fn children_and_descendants() {
    let mut p = Project::default();
    let root = p.root_id;
    let a = p.add_element(UiElement::new(ElementKind::Panel, "a"), root);
    let b = p.add_element(UiElement::new(ElementKind::Panel, "b"), root);
    let a1 = p.add_element(UiElement::new(ElementKind::Panel, "a1"), a);
    let a11 = p.add_element(UiElement::new(ElementKind::Panel, "a11"), a1);
    assert_eq!(p.children_ids(root), vec![a, b]);
    assert_eq!(p.children_ids(a), vec![a1]);
    let mut d = collect_descendants(&p, a);
    d.sort();
    let mut want = vec![a, a1, a11];
    want.sort();
    assert_eq!(d, want);
    assert_eq!(p.children_of(root).len(), 2);
    assert!(p.element(a11).is_some());
    assert!(p.element(12345).is_none());
}

#[test]
fn remove_element_removes_subtree_never_root() {
    let mut p = Project::default();
    let root = p.root_id;
    let a = p.add_element(UiElement::new(ElementKind::Panel, "a"), root);
    let b = p.add_element(UiElement::new(ElementKind::Panel, "b"), root);
    let a1 = p.add_element(UiElement::new(ElementKind::Panel, "a1"), a);
    assert!(!p.remove_element(root));
    assert_eq!(p.elements.len(), 4);
    assert!(p.remove_element(a));
    assert_eq!(ids(&p), vec![root, b]);
    assert!(p.element(a1).is_none());
    assert!(!p.remove_element(a));
}

#[test]
fn reorder_sibling_clamps_and_swaps() {
    let mut p = Project::default();
    let root = p.root_id;
    let a = p.add_element(UiElement::new(ElementKind::Panel, "a"), root);
    let b = p.add_element(UiElement::new(ElementKind::Panel, "b"), root);
    let c = p.add_element(UiElement::new(ElementKind::Panel, "c"), root);
    assert!(!p.reorder_sibling(a, -1));
    assert!(!p.reorder_sibling(c, 5));
    assert!(!p.reorder_sibling(root, 1));
    assert!(p.reorder_sibling(a, 5));
    assert_eq!(ids(&p), vec![root, c, b, a]);
    assert!(p.reorder_sibling(b, 1));
    assert_eq!(ids(&p), vec![root, c, a, b]);
}

#[test]
fn move_before_sibling_needs_same_parent() {
    let mut p = Project::default();
    let root = p.root_id;
    let a = p.add_element(UiElement::new(ElementKind::Panel, "a"), root);
    let b = p.add_element(UiElement::new(ElementKind::Panel, "b"), root);
    let a1 = p.add_element(UiElement::new(ElementKind::Panel, "a1"), a);
    assert!(!p.move_before_sibling(a, a));
    assert!(!p.move_before_sibling(a1, b));
    assert!(!p.move_before_sibling(root, a));
    assert!(p.move_before_sibling(b, a));
    assert_eq!(ids(&p), vec![root, b, a, a1]);
    assert!(p.move_before_sibling(b, a));
    assert_eq!(ids(&p), vec![root, b, a, a1]);
}

#[test]
fn duplicate_element_copies_with_fresh_ids() {
    let mut p = Project::default();
    let root = p.root_id;
    let mut el = UiElement::new(ElementKind::Panel, "card");
    el.text_layers.push(TextLayer::new("t"));
    el.image_layers.push(ImageLayer::new("i"));
    let a = p.add_element(el, root);
    assert_eq!(p.duplicate_element(root, Num::new(0, "0")), None);
    assert_eq!(p.duplicate_element(777, Num::new(0, "0")), None);
    let c = p.duplicate_element(a, Num::new(0x41a00000, "20")).unwrap();
    let orig = p.element(a).unwrap().clone();
    let copy = p.element(c).unwrap();
    assert_ne!(c, a);
    assert_eq!(copy.name, "card_copy");
    assert_eq!(copy.parent, Some(root));
    assert_eq!(copy.x, NumExpr::Fixed(Num::new(0x41a00000, "20")));
    assert_ne!(copy.text_layers[0].id, orig.text_layers[0].id);
    assert_eq!(copy.text_layers[0].name, "t");
    assert_ne!(copy.image_layers[0].id, orig.image_layers[0].id);
    assert_eq!(p.elements.last().unwrap().id, c);
}

#[test]
fn add_close_button_appends_named_button() {
    let mut p = Project::default();
    let root = p.root_id;
    let id = p.add_close_button(root, Num::new(0x41000000, "8")).unwrap();
    let cb = p.element(id).unwrap();
    assert_eq!(cb.name, "CloseBtn_1");
    assert_eq!(cb.kind, ElementKind::Button);
    assert_eq!(cb.text, StrExpr::Literal("x".to_string()));
    assert_eq!(cb.lua_do_click, "self:GetParent():Remove()");
    assert_eq!(cb.parent, Some(root));
}

#[test]
fn num_expr_glua_forms() {
    let half = Num::new(0x42480000, "0.5000");
    assert_eq!(NumExpr::Fixed(Num::new(0x41200000, "10")).to_glua(), "10");
    assert_eq!(NumExpr::ScrW.to_glua(), "ScrW()");
    assert_eq!(NumExpr::ScrHPercent(half.clone()).to_glua(), "ScrH() * 0.5000");
    assert_eq!(NumExpr::ParentWPercent(half.clone()).to_glua_in_parent(), "w * 0.5000");
    assert_eq!(NumExpr::ScrHPercent(half.clone()).to_glua_in_parent(), "h * 0.5000");
    assert_eq!(NumExpr::ParentWPercent(half.clone()).to_glua_for_child("p", NumAxis::X), "p:GetWide() * 0.5000");
    assert_eq!(NumExpr::ParentWPercent(half.clone()).to_glua_for_child("p", NumAxis::H), "p:GetTall() * 0.5000");
    assert_eq!(NumExpr::ScrW.to_glua_for_child("p", NumAxis::W), "p:GetWide()");
    assert_eq!(NumExpr::ScrW.to_glua_for_child("p", NumAxis::Y), "ScrW()");
    assert_eq!(NumExpr::Custom("a+b".to_string()).to_glua(), "a+b");
    assert_eq!(NumExpr::ScrWPercent(half.clone()).label(), "% от ширины экрана");
    assert_eq!(NumExpr::ScrWPercent(half).label_in_parent(), "% от ширины родителя");
    assert!(NumAxis::W.is_horizontal());
    assert!(!NumAxis::Y.is_horizontal());
}

#[test]
fn str_expr_glua_forms() {
    assert_eq!(StrExpr::Literal("a\"b\\".to_string()).to_glua(), "\"a\\\"b\\\\\"");
    assert_eq!(StrExpr::PlayerName.to_glua(), "LocalPlayer():Nick()");
    assert_eq!(StrExpr::Health.preview(), "100");
    assert_eq!(StrExpr::Literal("hey".to_string()).preview(), "hey");
    assert_eq!(format_lua_string("hi"), "\"hi\"");
}

#[test]
fn layers_defaults_and_reorder() {
    let t = TextLayer::new("T");
    assert_eq!(t.name, "T");
    assert_eq!(t.align, TextAlign::Left);
    assert_eq!(TextAlign::Center.glua_const(), "TEXT_ALIGN_CENTER");
    let mut i = ImageLayer::new("I");
    assert_eq!(i.alpha, 255);
    assert_eq!(i.export_material(), "");
    i.assign_local_image("C:\\x\\pic.PNG".to_string());
    assert_eq!(i.local_image_path, "C:\\x\\pic.PNG");
    assert_eq!(GradientDirection::Vertical.label(), "Вертикальный");
    assert_eq!(default_grad_steps(), 32);
    assert_eq!(default_grad_start(), [40, 44, 52, 220]);
    assert_eq!(default_grad_end(), [20, 22, 28, 220]);
    let mut v = vec![1, 2, 3];
    reorder_layer(&mut v, 2, true);
    assert_eq!(v, vec![1, 3, 2]);
    reorder_layer(&mut v, 0, true);
    assert_eq!(v, vec![1, 3, 2]);
    reorder_layer(&mut v, 2, false);
    assert_eq!(v, vec![1, 3, 2]);
    reorder_layer(&mut v, 0, false);
    assert_eq!(v, vec![3, 1, 2]);
}

#[test]
fn element_kind_labels_and_capabilities() {
    assert_eq!(ElementKind::Panel.label(), "DPanel");
    assert_eq!(ElementKind::EditablePanelImaged.vgui_class(), "EditablePanel");
    assert_eq!(ElementKind::TextEntry.vgui_class(), "DTextEntry");
    assert!(ElementKind::Image.accepts_image_drop());
    assert!(!ElementKind::TextEntry.accepts_image_drop());
    assert!(!ElementKind::Image.supports_layers());
    assert!(ElementKind::Frame.supports_image_layers());
    assert!(ElementKind::Button.supports_text_layers());
    assert!(ElementKind::Panel.supports_gradient());
    assert_eq!(BgImageMode::Stretch.label(), "Растянуть");
    assert_eq!(BgImageMode::Cover.label(), "Cover");
}

#[test]
fn element_images_and_materials() {
    let mut img = UiElement::new(ElementKind::Image, "i");
    img.assign_local_image("/a/b/c.png".to_string());
    assert_eq!(img.image_path, "materials/c.png");
    assert_eq!(img.preview_image_path(), "/a/b/c.png");
    let mut imaged = UiElement::new(ElementKind::EditablePanelImaged, "p");
    imaged.assign_local_image("d.jpg".to_string());
    assert_eq!(imaged.bg_image_material, "materials/d.jpg");
    assert_eq!(imaged.export_material_path(), "materials/d.jpg");
    let panel = UiElement::new(ElementKind::Panel, "p");
    assert!(!panel.uses_custom_paint());
}
