//! The elements of a design: VGUI panels, their kinds and their settings.

use vstd::prelude::*;
use vstd::string::*;
use crate::ids::{is_random_uuid, new_id};
use crate::model::expr::{Measure, Num, NumExpr, StrExpr};
use crate::model::layer::{GradientFill, GradientDirection, ImageLayer, TextLayer};
use crate::paths::material_for;

verus! {

/// The kind of VGUI panel an element is.
#[derive(Clone, Copy, Debug, PartialEq, Eq, Structural)]
pub enum ElementKind {
    Panel,
    Frame,
    Button,
    EditablePanel,
    EditablePanelImaged,
    TextEntry,
    Image,
}

impl ElementKind {
    /// The editor's name of the kind.
    pub open spec fn label_of(self) -> Seq<char> {
        match self {
            ElementKind::Panel => "DPanel"@,
            ElementKind::Frame => "DFrame"@,
            ElementKind::Button => "DButton"@,
            ElementKind::EditablePanel => "EditablePanel"@,
            ElementKind::EditablePanelImaged => "EditablePanel (imaged)"@,
            ElementKind::TextEntry => "DTextEntry"@,
            ElementKind::Image => "DImage"@,
        }
    }

    /// The editor's name of the kind.
    pub fn label(&self) -> (r: &'static str)
        ensures
            r@ == self.label_of(),
    {
        match self {
            ElementKind::Panel => "DPanel",
            ElementKind::Frame => "DFrame",
            ElementKind::Button => "DButton",
            ElementKind::EditablePanel => "EditablePanel",
            ElementKind::EditablePanelImaged => "EditablePanel (imaged)",
            ElementKind::TextEntry => "DTextEntry",
            ElementKind::Image => "DImage",
        }
    }

    /// The VGUI class that `vgui.Create` makes for the kind: both editable
    /// panels are `EditablePanel`, the others are named by their label.
    pub open spec fn vgui_class_of(self) -> Seq<char> {
        match self {
            ElementKind::EditablePanel | ElementKind::EditablePanelImaged => "EditablePanel"@,
            _ => self.label_of(),
        }
    }

    /// The VGUI class that `vgui.Create` makes for the kind.
    pub fn vgui_class(&self) -> (r: &'static str)
        ensures
            r@ == self.vgui_class_of(),
    {
        match self {
            ElementKind::EditablePanel | ElementKind::EditablePanelImaged => "EditablePanel",
            _ => self.label(),
        }
    }

    /// Whether the kind can hold text layers, image layers and a gradient:
    /// panels, frames, buttons and editable panels.
    pub open spec fn layered(self) -> bool {
        self is Panel || self is EditablePanel || self is EditablePanelImaged || self is Button
            || self is Frame
    }

    /// Whether an image file dropped on the element is taken: images, imaged
    /// panels and every kind with layers.
    pub fn accepts_image_drop(self) -> (r: bool)
        ensures
            r == (self is Image || self is EditablePanelImaged || self.layered()),
    {
        matches!(self, ElementKind::Image | ElementKind::EditablePanelImaged) || self.supports_layers()
    }

    /// Whether the kind can hold layers.
    pub fn supports_layers(self) -> (r: bool)
        ensures
            r == self.layered(),
    {
        matches!(
            self,
            ElementKind::Panel | ElementKind::EditablePanel | ElementKind::EditablePanelImaged
                | ElementKind::Button | ElementKind::Frame
        )
    }

    /// Whether the kind can hold text layers.
    pub fn supports_text_layers(self) -> (r: bool)
        ensures
            r == self.layered(),
    {
        self.supports_layers()
    }

    /// Whether the kind can have a gradient fill.
    pub fn supports_gradient(self) -> (r: bool)
        ensures
            r == self.layered(),
    {
        self.supports_layers()
    }

    /// Whether the kind can hold image layers.
    pub fn supports_image_layers(self) -> (r: bool)
        ensures
            r == self.layered(),
    {
        self.supports_layers()
    }
}

/// How the background image of an imaged panel is drawn.
#[derive(Clone, Copy, Debug, PartialEq, Eq, Structural)]
pub enum BgImageMode {
    Stretch,
    Tile,
    Cover,
}

impl Default for BgImageMode {
    /// Stretched.
    fn default() -> (r: Self)
        ensures
            r == BgImageMode::Stretch,
    {
        BgImageMode::Stretch
    }
}

impl BgImageMode {
    /// The editor's caption for the mode.
    pub open spec fn label_of(self) -> Seq<char> {
        match self {
            BgImageMode::Stretch => "Растянуть"@,
            BgImageMode::Tile => "Замостить"@,
            BgImageMode::Cover => "Cover"@,
        }
    }

    /// The editor's caption for the mode.
    pub fn label(&self) -> (r: &'static str)
        ensures
            r@ == self.label_of(),
    {
        match self {
            BgImageMode::Stretch => "Растянуть",
            BgImageMode::Tile => "Замостить",
            BgImageMode::Cover => "Cover",
        }
    }
}

/// How an element is docked in its parent.
#[derive(Clone, Copy, Debug, PartialEq, Eq, Structural)]
pub enum DockMode {
    Undocked,
    Fill,
    Top,
    Bottom,
    Left,
    Right,
}

impl Default for DockMode {
    /// Not docked.
    fn default() -> (r: Self)
        ensures
            r == DockMode::Undocked,
    {
        DockMode::Undocked
    }
}

/// The close button that the exporter adds to a panel.
#[derive(Debug, PartialEq)]
pub struct CloseButtonConfig {
    pub enabled: bool,
    pub w: Measure,
    pub h: Measure,
    pub x: NumExpr,
    pub y: NumExpr,
    pub label: String,
    pub lua_do_click: String,
}

impl Clone for CloseButtonConfig {
    fn clone(&self) -> (r: Self)
        ensures
            r == *self,
    {
        CloseButtonConfig {
            enabled: self.enabled,
            w: self.w.clone(),
            h: self.h.clone(),
            x: self.x.clone(),
            y: self.y.clone(),
            label: self.label.clone(),
            lua_do_click: self.lua_do_click.clone(),
        }
    }
}

/// The default size of a close button: 24.
pub fn default_close_size() -> (r: Measure)
    ensures
        r.is(0x41c00000, "24"@, true),
{
    Measure::new(0x41c00000, "24", true)
}

/// The default caption of a close button.
pub fn default_close_text() -> (r: String)
    ensures
        r@ == "x"@,
{
    String::from_str("x")
}

/// The default hover background of a button.
pub fn default_button_hover_bg() -> (r: [u8; 4])
    ensures
        r@ == seq![75u8, 140, 220, 255],
{
    [75, 140, 220, 255]
}

/// The default pressed background of a button.
pub fn default_button_pressed_bg() -> (r: [u8; 4])
    ensures
        r@ == seq![40u8, 90, 160, 255],
{
    [40, 90, 160, 255]
}

/// The default hover text colour of a button.
pub fn default_button_hover_text() -> (r: [u8; 4])
    ensures
        r@ == seq![255u8, 255, 255, 255],
{
    [255, 255, 255, 255]
}

/// The default pressed text colour of a button.
pub fn default_button_pressed_text() -> (r: [u8; 4])
    ensures
        r@ == seq![220u8, 220, 220, 255],
{
    [220, 220, 220, 255]
}

impl Default for CloseButtonConfig {
    /// A disabled close button 24 by 24 at 92% of the parent's width and 4
    /// down, captioned `x`, with no click code.
    fn default() -> (r: Self)
        ensures
            r.is_default(),
    {
        CloseButtonConfig {
            enabled: false,
            w: default_close_size(),
            h: default_close_size(),
            x: NumExpr::ParentWPercent(Num::new(0x42b80000, "0.9200")),
            y: NumExpr::Fixed(Num::new(0x40800000, "4")),
            label: default_close_text(),
            lua_do_click: String::new(),
        }
    }
}

impl CloseButtonConfig {
    /// Whether this is the default close button.
    pub open spec fn is_default(self) -> bool {
        &&& !self.enabled
        &&& self.w.is(0x41c00000, "24"@, true)
        &&& self.h.is(0x41c00000, "24"@, true)
        &&& self.x matches NumExpr::ParentWPercent(p) && p.is(0x42b80000, "0.9200"@)
        &&& self.y.is_fixed(0x40800000, "4"@)
        &&& self.label@ == "x"@
        &&& self.lua_do_click@.len() == 0
    }
}

/// One element of a design.
#[derive(Debug, PartialEq)]
pub struct UiElement {
    pub id: u128,
    pub name: String,
    pub kind: ElementKind,
    pub parent: Option<u128>,
    pub x: NumExpr,
    pub y: NumExpr,
    pub w: NumExpr,
    pub h: NumExpr,
    pub visible: bool,
    pub corner_radius: Measure,
    pub bg_color: [u8; 4],
    pub text_color: [u8; 4],
    pub text: StrExpr,
    pub font_name: String,
    pub font_size: u32,
    pub image_path: String,
    pub image_url: String,
    pub local_image_path: String,
    pub bg_image_material: String,
    pub bg_image_mode: BgImageMode,
    pub bg_image_alpha: u8,
    pub bg_image_tile_size: u32,
    pub dock: DockMode,
    pub paint_background: bool,
    pub clickable: bool,
    pub text_entry_multiline: bool,
    pub text_entry_draw_background: bool,
    pub text_entry_draw_border: bool,
    pub text_entry_numeric: bool,
    pub text_entry_editable: bool,
    pub bg_gradient: GradientFill,
    pub text_layers: Vec<TextLayer>,
    pub image_layers: Vec<ImageLayer>,
    pub locked: bool,
    pub notes: String,
    pub make_popup: bool,
    pub close_on_escape: bool,
    pub close_button: CloseButtonConfig,
    pub button_hover_enabled: bool,
    pub button_hover_bg: [u8; 4],
    pub button_pressed_enabled: bool,
    pub button_pressed_bg: [u8; 4],
    pub button_hover_text_color: [u8; 4],
    pub button_pressed_text_color: [u8; 4],
    pub button_disabled: bool,
    pub lua_do_click: String,
    pub lua_on_hover: String,
}

/// An element as a value: its layers as sequences, and the element with its
/// layer vectors left out.
pub struct ElementView {
    pub fields: UiElement,
    pub text_layers: Seq<TextLayer>,
    pub image_layers: Seq<ImageLayer>,
}

impl View for UiElement {
    type V = ElementView;

    open spec fn view(&self) -> ElementView {
        ElementView {
            fields: UiElement {
                text_layers: vstd::pervasive::arbitrary(),
                image_layers: vstd::pervasive::arbitrary(),
                ..*self
            },
            text_layers: self.text_layers@,
            image_layers: self.image_layers@,
        }
    }
}

impl Clone for UiElement {
    fn clone(&self) -> (r: Self)
        ensures
            r@ == self@,
    {
        let text_layers = self.text_layers.clone();
        let image_layers = self.image_layers.clone();
        proof {
            assert(text_layers@ =~= self.text_layers@);
            assert(image_layers@ =~= self.image_layers@);
        }
        UiElement {
            id: self.id,
            name: self.name.clone(),
            kind: self.kind,
            parent: self.parent,
            x: self.x.clone(),
            y: self.y.clone(),
            w: self.w.clone(),
            h: self.h.clone(),
            visible: self.visible,
            corner_radius: self.corner_radius.clone(),
            bg_color: self.bg_color,
            text_color: self.text_color,
            text: self.text.clone(),
            font_name: self.font_name.clone(),
            font_size: self.font_size,
            image_path: self.image_path.clone(),
            image_url: self.image_url.clone(),
            local_image_path: self.local_image_path.clone(),
            bg_image_material: self.bg_image_material.clone(),
            bg_image_mode: self.bg_image_mode,
            bg_image_alpha: self.bg_image_alpha,
            bg_image_tile_size: self.bg_image_tile_size,
            dock: self.dock,
            paint_background: self.paint_background,
            clickable: self.clickable,
            text_entry_multiline: self.text_entry_multiline,
            text_entry_draw_background: self.text_entry_draw_background,
            text_entry_draw_border: self.text_entry_draw_border,
            text_entry_numeric: self.text_entry_numeric,
            text_entry_editable: self.text_entry_editable,
            bg_gradient: self.bg_gradient,
            text_layers,
            image_layers,
            locked: self.locked,
            notes: self.notes.clone(),
            make_popup: self.make_popup,
            close_on_escape: self.close_on_escape,
            close_button: self.close_button.clone(),
            button_hover_enabled: self.button_hover_enabled,
            button_hover_bg: self.button_hover_bg,
            button_pressed_enabled: self.button_pressed_enabled,
            button_pressed_bg: self.button_pressed_bg,
            button_hover_text_color: self.button_hover_text_color,
            button_pressed_text_color: self.button_pressed_text_color,
            button_disabled: self.button_disabled,
            lua_do_click: self.lua_do_click.clone(),
            lua_on_hover: self.lua_on_hover.clone(),
        }
    }
}

/// Whether a new element of the kind paints its background: all but the
/// editable panels and text entries.
pub open spec fn paints_background(kind: ElementKind) -> bool {
    !(kind is EditablePanel || kind is EditablePanelImaged || kind is TextEntry)
}

/// Whether a new element of the kind paints its background.
pub fn default_paint_background(kind: ElementKind) -> (r: bool)
    ensures
        r == paints_background(kind),
{
    match kind {
        ElementKind::EditablePanel | ElementKind::EditablePanelImaged | ElementKind::TextEntry => false,
        _ => true,
    }
}

/// The background colour of a new element of the kind.
pub open spec fn background_of(kind: ElementKind) -> Seq<u8> {
    match kind {
        ElementKind::Panel => seq![40u8, 44, 52, 220],
        ElementKind::Frame => seq![30u8, 32, 38, 245],
        ElementKind::Button => seq![55u8, 120, 200, 255],
        ElementKind::EditablePanel => seq![0u8, 0, 0, 0],
        ElementKind::EditablePanelImaged => seq![0u8, 0, 0, 0],
        ElementKind::TextEntry => seq![30u8, 32, 38, 200],
        ElementKind::Image => seq![255u8, 255, 255, 255],
    }
}

/// The background colour of a new element of the kind.
pub fn default_bg(kind: ElementKind) -> (r: [u8; 4])
    ensures
        r@ == background_of(kind),
{
    let r: [u8; 4] = match kind {
        ElementKind::Panel => [40, 44, 52, 220],
        ElementKind::Frame => [30, 32, 38, 245],
        ElementKind::Button => [55, 120, 200, 255],
        ElementKind::EditablePanel => [0, 0, 0, 0],
        ElementKind::EditablePanelImaged => [0, 0, 0, 0],
        ElementKind::TextEntry => [30, 32, 38, 200],
        ElementKind::Image => [255, 255, 255, 255],
    };
    assert(r@ =~= background_of(kind));
    r
}

/// The width of a new element of the kind: its bit pattern and text.
pub open spec fn new_width(kind: ElementKind) -> (u32, Seq<char>) {
    match kind {
        ElementKind::Panel => (0x43480000u32, "200"@),
        ElementKind::Frame => (0x43c80000u32, "400"@),
        ElementKind::Button => (0x42f00000u32, "120"@),
        ElementKind::EditablePanel => (0x43160000u32, "150"@),
        ElementKind::EditablePanelImaged => (0x43480000u32, "200"@),
        ElementKind::TextEntry => (0x43480000u32, "200"@),
        ElementKind::Image => (0x43000000u32, "128"@),
    }
}

/// The height of a new element of the kind: its bit pattern and text.
pub open spec fn new_height(kind: ElementKind) -> (u32, Seq<char>) {
    match kind {
        ElementKind::Panel => (0x43160000u32, "150"@),
        ElementKind::Frame => (0x43960000u32, "300"@),
        ElementKind::Button => (0x42000000u32, "32"@),
        ElementKind::EditablePanel => (0x41c00000u32, "24"@),
        ElementKind::EditablePanelImaged => (0x42a00000u32, "80"@),
        ElementKind::TextEntry => (0x41e00000u32, "28"@),
        ElementKind::Image => (0x43000000u32, "128"@),
    }
}

impl UiElement {
    /// Whether `e` is a new element of the kind, named `name`: at 10, 10,
    /// of the kind's default size and colours, with every other setting at
    /// its default.
    pub open spec fn is_new(e: UiElement, kind: ElementKind, name: Seq<char>) -> bool {
        &&& e.x.is_fixed(0x41200000, "10"@)
        &&& e.y.is_fixed(0x41200000, "10"@)
        &&& e.w.is_fixed(new_width(kind).0, new_width(kind).1)
        &&& e.h.is_fixed(new_height(kind).0, new_height(kind).1)
        &&& e.text.is_empty_literal()
        &&& e.font_size == 16
        &&& e.lua_do_click@.len() == 0
        &&& !e.button_hover_enabled
        &&& !e.button_pressed_enabled
        &&& UiElement::has_new_settings(e, kind, name)
    }

    /// Whether the settings of `e` other than its position, size, text,
    /// font size, click code and button states are those of a new element of
    /// the kind named `name`.
    pub open spec fn has_new_settings(e: UiElement, kind: ElementKind, name: Seq<char>) -> bool {
        &&& e.name@ == name
        &&& e.kind == kind
        &&& e.parent is None
        &&& e.visible
        &&& e.corner_radius.is(0, "0"@, false)
        &&& e.bg_color@ == background_of(kind)
        &&& e.text_color@ == seq![255u8, 255, 255, 255]
        &&& e.font_name@.len() == 0
        &&& e.image_path@.len() == 0
        &&& e.image_url@.len() == 0
        &&& e.local_image_path@.len() == 0
        &&& e.bg_image_material@.len() == 0
        &&& e.bg_image_mode == BgImageMode::Stretch
        &&& e.bg_image_alpha == 255
        &&& e.bg_image_tile_size == 64
        &&& e.dock == DockMode::Undocked
        &&& e.paint_background == paints_background(kind)
        &&& e.clickable == (kind is Button || kind is Frame)
        &&& !e.text_entry_multiline
        &&& e.text_entry_draw_background
        &&& e.text_entry_draw_border
        &&& !e.text_entry_numeric
        &&& e.text_entry_editable
        &&& !e.bg_gradient.enabled
        &&& e.bg_gradient.color_start@ == seq![40u8, 44, 52, 220]
        &&& e.bg_gradient.color_end@ == seq![20u8, 22, 28, 220]
        &&& e.bg_gradient.direction == GradientDirection::Vertical
        &&& e.bg_gradient.steps == 32
        &&& e.text_layers@.len() == 0
        &&& e.image_layers@.len() == 0
        &&& !e.locked
        &&& e.notes@.len() == 0
        &&& !e.make_popup
        &&& !e.close_on_escape
        &&& e.close_button.is_default()
        &&& e.button_hover_bg@ == seq![75u8, 140, 220, 255]
        &&& e.button_pressed_bg@ == seq![40u8, 90, 160, 255]
        &&& e.button_hover_text_color@ == seq![255u8, 255, 255, 255]
        &&& e.button_pressed_text_color@ == seq![220u8, 220, 220, 255]
        &&& !e.button_disabled
        &&& e.lua_on_hover@.len() == 0
    }

    /// A new element of the kind named `name`, with a fresh id.
    pub fn new(kind: ElementKind, name: &str) -> (r: UiElement)
        ensures
            UiElement::is_new(r, kind, name@),
            is_random_uuid(r.id),
    {
        let (w, h) = match kind {
            ElementKind::Panel => (Num::new(0x43480000, "200"), Num::new(0x43160000, "150")),
            ElementKind::Frame => (Num::new(0x43c80000, "400"), Num::new(0x43960000, "300")),
            ElementKind::Button => (Num::new(0x42f00000, "120"), Num::new(0x42000000, "32")),
            ElementKind::EditablePanel => (Num::new(0x43160000, "150"), Num::new(0x41c00000, "24")),
            ElementKind::EditablePanelImaged => (Num::new(0x43480000, "200"), Num::new(0x42a00000, "80")),
            ElementKind::TextEntry => (Num::new(0x43480000, "200"), Num::new(0x41e00000, "28")),
            ElementKind::Image => (Num::new(0x43000000, "128"), Num::new(0x43000000, "128")),
        };
        let text_color: [u8; 4] = [255, 255, 255, 255];
        assert(text_color@ =~= seq![255u8, 255, 255, 255]);
        UiElement {
            id: new_id(),
            name: String::from_str(name),
            kind,
            parent: None,
            x: NumExpr::Fixed(Num::new(0x41200000, "10")),
            y: NumExpr::Fixed(Num::new(0x41200000, "10")),
            w: NumExpr::Fixed(w),
            h: NumExpr::Fixed(h),
            visible: true,
            corner_radius: Measure::new(0, "0", false),
            bg_color: default_bg(kind),
            text_color,
            text: StrExpr::Literal(String::new()),
            font_name: String::new(),
            font_size: 16,
            image_path: String::new(),
            image_url: String::new(),
            local_image_path: String::new(),
            bg_image_material: String::new(),
            bg_image_mode: BgImageMode::Stretch,
            bg_image_alpha: 255,
            bg_image_tile_size: 64,
            dock: DockMode::Undocked,
            paint_background: default_paint_background(kind),
            clickable: matches!(kind, ElementKind::Button | ElementKind::Frame),
            text_entry_multiline: false,
            text_entry_draw_background: true,
            text_entry_draw_border: true,
            text_entry_numeric: false,
            text_entry_editable: true,
            bg_gradient: GradientFill::default(),
            text_layers: Vec::new(),
            image_layers: Vec::new(),
            locked: false,
            notes: String::new(),
            make_popup: false,
            close_on_escape: false,
            close_button: CloseButtonConfig::default(),
            button_hover_enabled: false,
            button_hover_bg: default_button_hover_bg(),
            button_pressed_enabled: false,
            button_pressed_bg: default_button_pressed_bg(),
            button_hover_text_color: default_button_hover_text(),
            button_pressed_text_color: default_button_pressed_text(),
            button_disabled: false,
            lua_do_click: String::new(),
            lua_on_hover: String::new(),
        }
    }

    /// A new close button named `name`: a 24 by 24 button at `x` and 4 down,
    /// captioned `x` in size 18, that removes its parent when clicked and
    /// changes colour on hover and press. The editor places it 28 pixels
    /// left of its parent's right edge (at least at 0) and passes that `x`.
    pub fn new_close_button(name: &str, x: Num) -> (r: UiElement)
        ensures
            is_random_uuid(r.id),
            r.name@ == name@,
            r.kind == ElementKind::Button,
            r.w.is_fixed(0x41c00000, "24"@),
            r.h.is_fixed(0x41c00000, "24"@),
            r.x == NumExpr::Fixed(x),
            r.y.is_fixed(0x40800000, "4"@),
            r.text matches StrExpr::Literal(t) && t@ == "x"@,
            r.font_size == 18,
            r.lua_do_click@ == "self:GetParent():Remove()"@,
            r.button_hover_enabled,
            r.button_pressed_enabled,
            UiElement::has_new_settings(r, ElementKind::Button, name@),
    {
        let mut el = Self::new(ElementKind::Button, name);
        el.w = NumExpr::Fixed(Num::new(0x41c00000, "24"));
        el.h = NumExpr::Fixed(Num::new(0x41c00000, "24"));
        el.x = NumExpr::Fixed(x);
        el.y = NumExpr::Fixed(Num::new(0x40800000, "4"));
        el.text = StrExpr::Literal(default_close_text());
        el.font_size = 18;
        el.lua_do_click = String::from_str("self:GetParent():Remove()");
        el.button_hover_enabled = true;
        el.button_pressed_enabled = true;
        el
    }

    /// The material path that the exported code loads for the element: for
    /// an imaged panel its background material when set; else its image
    /// path, else its image URL, else none (empty).
    pub open spec fn export_material_of(self) -> Seq<char> {
        if self.kind is EditablePanelImaged && self.bg_image_material@.len() != 0 {
            self.bg_image_material@
        } else if self.image_path@.len() != 0 {
            self.image_path@
        } else if self.image_url@.len() != 0 {
            self.image_url@
        } else {
            Seq::empty()
        }
    }

    /// The material path that the exported code loads for the element.
    pub fn export_material_path(&self) -> (r: String)
        ensures
            r@ == self.export_material_of(),
    {
        if self.kind == ElementKind::EditablePanelImaged {
            if self.bg_image_material.as_str().unicode_len() != 0 {
                return self.bg_image_material.clone();
            }
        }
        if self.image_path.as_str().unicode_len() != 0 {
            return self.image_path.clone();
        }
        if self.image_url.as_str().unicode_len() != 0 {
            return self.image_url.clone();
        }
        String::new()
    }

    /// Whether the exporter writes a `Paint` function of its own for the
    /// element: for layers, a gradient, button hover or press colours, an
    /// imaged panel's material, or a rounded painted background.
    pub open spec fn custom_paint(self) -> bool {
        ||| self.text_layers@.len() != 0
        ||| self.image_layers@.len() != 0
        ||| self.bg_gradient.enabled
        ||| (self.kind is Button && (self.button_hover_enabled || self.button_pressed_enabled))
        ||| (self.kind is EditablePanelImaged && self.export_material_of().len() != 0)
        ||| (self.paint_background && self.corner_radius.positive && self.bg_color@[3] > 0
            && !self.bg_gradient.enabled)
    }

    /// Whether the exporter writes a `Paint` function of its own.
    pub fn uses_custom_paint(&self) -> (r: bool)
        ensures
            r == self.custom_paint(),
    {
        let button_states = self.kind == ElementKind::Button
            && (self.button_hover_enabled || self.button_pressed_enabled);
        self.text_layers.len() != 0 || self.image_layers.len() != 0 || self.bg_gradient.enabled
            || button_states
            || (self.kind == ElementKind::EditablePanelImaged
                && self.export_material_path().as_str().unicode_len() != 0)
            || (self.paint_background && self.corner_radius.positive && self.bg_color[3] > 0
                && !self.bg_gradient.enabled)
    }

    /// The local image file that the editor shows for the element (empty
    /// when there is none).
    pub fn preview_image_path(&self) -> (r: &str)
        ensures
            r@ == self.local_image_path@,
    {
        self.local_image_path.as_str()
    }

    /// Shows the file at `path` in the editor; an imaged panel without a
    /// background material, or an image without an image path, gets the
    /// material path suggested for the file.
    #[verifier::rlimit(50)]
    pub fn assign_local_image(&mut self, path: String)
        ensures
            final(self).local_image_path@ == path@,
            final(self).bg_image_material@ == if old(self).kind is EditablePanelImaged
                && old(self).bg_image_material@.len() == 0 {
                material_for(path@)
            } else {
                old(self).bg_image_material@
            },
            final(self).image_path@ == if old(self).kind is Image && old(self).image_path@.len() == 0 {
                material_for(path@)
            } else {
                old(self).image_path@
            },
            final(self)@ == (UiElement {
                local_image_path: final(self).local_image_path,
                bg_image_material: final(self).bg_image_material,
                image_path: final(self).image_path,
                ..*old(self)
            })@,
    {
        let suggested = crate::paths::suggest_material_path(path.as_str());
        self.local_image_path = path;
        match self.kind {
            ElementKind::EditablePanelImaged => {
                if self.bg_image_material.as_str().unicode_len() == 0 {
                    self.bg_image_material = suggested;
                }
            },
            ElementKind::Image => {
                if self.image_path.as_str().unicode_len() == 0 {
                    self.image_path = suggested;
                }
            },
            _ => {},
        }
    }
}

} // verus!
