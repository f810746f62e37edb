use lua_interface_interpretator::codegen::generate_glua;
use lua_interface_interpretator::codegen::paint::{bool_lua, color_glua, font_for_draw, is_empty_text};
use lua_interface_interpretator::codegen::script::{topological_order, unique_var_names};
use lua_interface_interpretator::model::{
    ElementKind, GradientDirection, ImageLayer, Measure, Num, NumExpr, Project, StrExpr, TextAlign, TextLayer, UiElement,
};

fn var_of(names: &[(u128, String)], id: u128) -> String {
    names.iter().find(|(i, _)| *i == id).map(|(_, n)| n.clone()).unwrap()
}

#[test]
fn editable_panel_export_does_not_call_missing_set_text() {
    let project = Project::default();

    let code = generate_glua(&project);

    assert!(!code.contains(":SetText(\"\")"));
}

#[test]
fn frame_export_clears_title_with_frame_api() {
    let mut project = Project::default();
    let root_id = project.root_id;
    let frame_id = project.add_element(UiElement::new(ElementKind::Frame, "Frame"), root_id);

    let code = generate_glua(&project);
    let names = unique_var_names(&project, &topological_order(&project, project.root_id));
    let frame_var = names
        .iter()
        .find(|(id, _)| *id == frame_id)
        .map(|(_, name)| name.as_str())
        .unwrap();

    assert!(code.contains(&format!("{frame_var}:SetTitle(\"\")")));
    assert!(!code.contains(&format!("{frame_var}:SetText(\"\")")));
}

#[test]
fn duplicate_and_keyword_element_names_get_safe_lua_locals() {
    let mut project = Project::default();
    let root_id = project.root_id;
    let first = project.add_element(UiElement::new(ElementKind::Panel, "end"), root_id);
    let second = project.add_element(UiElement::new(ElementKind::Panel, "end"), root_id);
    project.add_element(UiElement::new(ElementKind::Panel, "child"), first);
    project.add_element(UiElement::new(ElementKind::Panel, "sibling"), second);

    let code = generate_glua(&project);

    assert!(code.contains("local p_end = vgui.Create(\"DPanel\", RootPanel)"));
    assert!(code.contains("local p_end_2 = vgui.Create(\"DPanel\", RootPanel)"));
    assert!(code.contains("local child = vgui.Create(\"DPanel\", p_end)"));
    assert!(code.contains("local sibling = vgui.Create(\"DPanel\", p_end_2)"));
}

#[test]
fn default_project_exports_exact_script() {
    let project = Project::default();
    let code = generate_glua(&project);
    let expected = "-- GLua UI (сгенерировано lua_interface_interpretator)\n\
-- Проект: Новый интерфейс\n\n\
local function CreateUI()\n\
\tlocal scrW, scrH = ScrW(), ScrH()\n\n\
\tlocal RootPanel = vgui.Create(\"EditablePanel\")\n\
\tRootPanel:SetPos(0, 0)\n\
\tRootPanel:SetSize(ScrW(), ScrH())\n\
\n\
\treturn RootPanel\nend\n\n\
return CreateUI\n";
    assert_eq!(code, expected);
}

#[test]
fn topological_order_lists_parents_before_children_in_drawing_order() {
    let mut project = Project::default();
    let root = project.root_id;
    let a = project.add_element(UiElement::new(ElementKind::Panel, "a"), root);
    let b = project.add_element(UiElement::new(ElementKind::Panel, "b"), root);
    let a1 = project.add_element(UiElement::new(ElementKind::Button, "a1"), a);
    let b1 = project.add_element(UiElement::new(ElementKind::Button, "b1"), b);
    let a2 = project.add_element(UiElement::new(ElementKind::Button, "a2"), a);
    assert_eq!(topological_order(&project, root), vec![root, a, a1, a2, b, b1]);
    assert_eq!(topological_order(&project, b), vec![b, b1]);
}

#[test]
fn unique_var_names_are_distinct_for_many_equal_names() {
    let mut project = Project::default();
    let root = project.root_id;
    for _ in 0..5 {
        project.add_element(UiElement::new(ElementKind::Panel, "x y"), root);
    }
    project.add_element(UiElement::new(ElementKind::Panel, "x_y_2"), root);
    let ordered = topological_order(&project, root);
    let names = unique_var_names(&project, &ordered);
    let just: Vec<&str> = names.iter().map(|(_, n)| n.as_str()).collect();
    assert_eq!(just, vec!["RootPanel", "x_y", "x_y_2", "x_y_3", "x_y_4", "x_y_5", "x_y_2_2"]);
    for i in 0..just.len() {
        for j in (i + 1)..just.len() {
            assert_ne!(just[i], just[j]);
        }
    }
}

#[test]
fn names_starting_with_digit_or_empty_get_prefix() {
    let mut project = Project::default();
    let root = project.root_id;
    let d = project.add_element(UiElement::new(ElementKind::Panel, "1st"), root);
    let e = project.add_element(UiElement::new(ElementKind::Panel, ""), root);
    let names = unique_var_names(&project, &topological_order(&project, root));
    assert_eq!(var_of(&names, d), "p_1st");
    assert_eq!(var_of(&names, e), "p_");
}

#[test]
fn button_export_creates_button_under_parent_and_paints() {
    let mut project = Project::default();
    let root = project.root_id;
    let mut button = UiElement::new(ElementKind::Button, "Play");
    button.text = StrExpr::Literal("Go \"now\"".to_string());
    project.add_element(button, root);
    let code = generate_glua(&project);
    assert!(code.contains("\tlocal Play = vgui.Create(\"DButton\", RootPanel)\n"));
    assert!(code.contains("\tPlay:SetPos(10, 10)\n"));
    assert!(code.contains("\tPlay:SetSize(120, 32)\n"));
    assert!(code.contains("\tPlay:SetText(\"\")\n"));
    assert!(code.contains("Go \\\"now\\\""));
    assert!(code.contains("\tPlay.Paint = function(self, w, h)\n"));
}

#[test]
fn hidden_element_export_sets_visible_false() {
    let mut project = Project::default();
    let root = project.root_id;
    let mut panel = UiElement::new(ElementKind::Panel, "Hidden");
    panel.visible = false;
    panel.x = NumExpr::Fixed(Num::new(0x42c80000, "100"));
    project.add_element(panel, root);
    let code = generate_glua(&project);
    assert!(code.contains("\tHidden:SetVisible(false)\n"));
    assert!(code.contains("\tHidden:SetPos(100, 10)\n"));
}

#[test]
fn color_glua_writes_color_call() {
    assert_eq!(color_glua([1, 22, 255, 0]), "Color(1, 22, 255, 0)");
}

#[test]
fn bool_lua_writes_lua_literals() {
    assert_eq!(bool_lua(true), "true");
    assert_eq!(bool_lua(false), "false");
}

#[test]
fn font_for_draw_defaults_and_escapes() {
    assert_eq!(font_for_draw(""), "DermaDefault");
    assert_eq!(font_for_draw("My\"Font\\"), "My\\\"Font\\\\");
}

#[test]
fn is_empty_text_only_for_empty_literal() {
    assert!(is_empty_text(&StrExpr::Literal(String::new())));
    assert!(!is_empty_text(&StrExpr::Literal("a".to_string())));
    assert!(!is_empty_text(&StrExpr::PlayerName));
}

#[test]
fn hover_button_exports_exact_block() {
    let mut project = Project::default();
    let root = project.root_id;
    let mut button = UiElement::new(ElementKind::Button, "Play");
    button.text = StrExpr::Literal("Go".to_string());
    button.button_hover_enabled = true;
    project.add_element(button, root);
    let code = generate_glua(&project);
    let block = "\tlocal Play = vgui.Create(\"DButton\", RootPanel)\n\
\tPlay:SetPos(10, 10)\n\
\tPlay:SetSize(120, 32)\n\
\tPlay:SetText(\"\")\n\
\tPlay._UIBg = Color(55, 120, 200, 255)\n\
\tPlay._UIBgHover = Color(75, 140, 220, 255)\n\
\tPlay._UITextHover = Color(255, 255, 255, 255)\n\
\tPlay._UITextPressed = Color(220, 220, 220, 255)\n\
\tPlay._UIText = Color(255, 255, 255, 255)\n\
\tPlay.Paint = function(self, w, h)\n\
\t\tlocal col = self._UIBg\n\
\t\tif self:IsHovered() and not self:IsDown() then\n\
\t\t\tcol = self._UIBgHover\n\
\t\tend\n\
\t\tdraw.RoundedBox(0, 0, 0, w, h, col)\n\
\t\tdo\n\
\t\t\tlocal textCol = self._UIText\n\
\t\t\tif self:IsHovered() and not self:IsDown() then\n\
\t\t\t\ttextCol = self._UITextHover\n\
\t\t\tend\n\
\t\t\tdraw.SimpleText(\"Go\", \"DermaDefault\", w / 2, h / 2, textCol, TEXT_ALIGN_CENTER)\n\
\t\tend\n\
\tend\n\
\n\
\treturn RootPanel\n";
    assert!(code.contains(block), "{code}");
}

#[test]
fn close_button_and_scripts_are_exported() {
    let mut project = Project::default();
    let root = project.root_id;
    let mut frame = UiElement::new(ElementKind::Frame, "Win");
    frame.close_button.enabled = true;
    frame.lua_do_click = "  print(1)\r\nprint(2)  ".to_string();
    frame.lua_on_hover = "x()".to_string();
    frame.close_on_escape = true;
    frame.make_popup = true;
    project.add_element(frame, root);
    let code = generate_glua(&project);
    assert!(code.contains("\tWin:MakePopup()\n"));
    assert!(code.contains("\tWin.OnKeyCodeReleased = function(self, key)\n\t\tif key == KEY_ESCAPE then self:Remove() end\n\tend\n"));
    assert!(code.contains("\tWin.DoClick = function(self)\n\t\tprint(1)\n\t\tprint(2)\n\tend\n"));
    assert!(code.contains("\tWin.Think = function(self)\n\t\tif self:IsHovered() then\n\t\t\tx()\n\t\tend\n\tend\n"));
    assert!(code.contains(
        "\tlocal Win_CloseBtn = vgui.Create(\"DButton\", Win)\n\
\tWin_CloseBtn:SetPos(Win:GetWide() * 0.9200, 4)\n\
\tWin_CloseBtn:SetSize(24, 24)\n\
\tWin_CloseBtn:SetText(\"x\")\n\
\tWin_CloseBtn.DoClick = function(self)\n\
\t\tself:GetParent():Remove()\n\
\tend\n"
    ));
}

#[test]
fn layered_panel_exports_exact_block() {
    let mut project = Project::default();
    let root = project.root_id;
    let mut card = UiElement::new(ElementKind::Panel, "Card");
    card.bg_gradient.enabled = true;
    card.bg_gradient.direction = GradientDirection::Horizontal;
    card.bg_gradient.steps = 200;
    let mut img = ImageLayer::new("img");
    img.material_path = "materials/x.png".to_string();
    img.alpha = 128;
    img.x = NumExpr::Fixed(Num::new(0x40a00000, "5"));
    img.y = NumExpr::ParentHPercent(Num::new(0x42480000, "0.5000"));
    card.image_layers.push(img);
    let mut text = TextLayer::new("T");
    text.text = StrExpr::Literal("Hi".to_string());
    text.text_color = [1, 2, 3, 4];
    text.align = TextAlign::Center;
    card.text_layers.push(text);
    project.add_element(card, root);
    let code = generate_glua(&project);
    let block = "\tlocal Card = vgui.Create(\"DPanel\", RootPanel)\n\
\tCard:SetPos(10, 10)\n\
\tCard:SetSize(200, 150)\n\
\tCard._UIBg = Color(40, 44, 52, 220)\n\
\tCard._UIText0 = Color(1, 2, 3, 4)\n\
\tCard._UIGradStart = Color(40, 44, 52, 220)\n\
\tCard._UIGradEnd = Color(20, 22, 28, 220)\n\
\tCard._UIGradSteps = 128\n\
\tCard.Paint = function(self, w, h)\n\
\t\tlocal steps = self._UIGradSteps\n\
\t\tlocal gs, ge = self._UIGradStart, self._UIGradEnd\n\
\t\tfor i = 0, steps do\n\
\t\t\tlocal t = i / steps\n\
\t\t\tlocal r = Lerp(t, gs.r, ge.r)\n\
\t\t\tlocal g = Lerp(t, gs.g, ge.g)\n\
\t\t\tlocal b = Lerp(t, gs.b, ge.b)\n\
\t\t\tlocal a = Lerp(t, gs.a, ge.a)\n\
\t\t\tsurface.SetDrawColor(r, g, b, a)\n\
\t\t\tsurface.DrawRect(w * t, 0, w / steps + 1, h)\n\
\t\tend\n\
\t\tsurface.SetDrawColor(255, 255, 255, 128)\n\
\t\tsurface.SetMaterial(Material(\"materials/x.png\"))\n\
\t\tsurface.DrawTexturedRect(5, h * 0.5000, 64, 64)\n\
\t\tdraw.SimpleText(\"Hi\", \"DermaDefault\", 8, 8, self._UIText0, TEXT_ALIGN_CENTER)\n\
\tend\n\
\n";
    assert!(code.contains(block), "{code}");
}

#[test]
fn imaged_panel_and_image_export_materials() {
    let mut project = Project::default();
    let root = project.root_id;
    let mut imaged = UiElement::new(ElementKind::EditablePanelImaged, "Bg");
    imaged.assign_local_image("/pics/wall.png".to_string());
    project.add_element(imaged, root);
    let mut pic = UiElement::new(ElementKind::Image, "Pic");
    pic.image_url = "https://x/y.png".to_string();
    project.add_element(pic, root);
    let empty = UiElement::new(ElementKind::Image, "Empty");
    project.add_element(empty, root);
    let code = generate_glua(&project);
    assert!(code.contains("\tBg.BgMat = Material(\"materials/wall.png\")\n\tBg.Paint = function(self, w, h)\n\t\tsurface.SetDrawColor(255, 255, 255, 255)\n\t\tsurface.SetMaterial(self.BgMat)\n\t\tsurface.DrawTexturedRect(0, 0, w, h)\n\tend\n"), "{code}");
    assert!(code.contains("\tPic:SetMaterial(Material(\"https://x/y.png\"))\n"));
    assert!(code.contains("\tEmpty:SetMaterial(Material(\"icon16/picture.png\"))\n"));
}

#[test]
fn rounded_imaged_panel_caches_the_background_its_paint_reads() {
    let mut project = Project::default();
    let root = project.root_id;
    let mut imaged = UiElement::new(ElementKind::EditablePanelImaged, "Bg");
    imaged.assign_local_image("/pics/wall.png".to_string());
    imaged.corner_radius = Measure::new(0x41000000, "8", true);
    imaged.bg_color = [10, 20, 30, 255];
    assert!(!imaged.paint_background);
    project.add_element(imaged, root);
    let code = generate_glua(&project);
    assert!(code.contains("\t\tdraw.RoundedBox(8, 0, 0, w, h, self._UIBg)\n"));
    let set = code.find("\tBg._UIBg = Color(10, 20, 30, 255)\n").unwrap();
    let read = code.find("self._UIBg").unwrap();
    assert!(set < read);
}
