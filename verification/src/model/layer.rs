//! Text and image layers drawn inside an element, and its gradient fill.

use vstd::prelude::*;
use vstd::string::*;
use crate::ids::{is_random_uuid, new_id};
use crate::model::expr::{Num, NumExpr, StrExpr};
use crate::paths::material_for;

verus! {

/// The horizontal alignment of a text layer.
#[derive(Clone, Copy, Debug, PartialEq, Eq, Structural)]
pub enum TextAlign {
    Left,
    Center,
    Right,
}

impl Default for TextAlign {
    /// Left alignment.
    fn default() -> (r: Self)
        ensures
            r == TextAlign::Left,
    {
        TextAlign::Left
    }
}

impl TextAlign {
    /// The editor's caption for the alignment.
    pub open spec fn label_of(self) -> Seq<char> {
        match self {
            TextAlign::Left => "Слева"@,
            TextAlign::Center => "По центру"@,
            TextAlign::Right => "Справа"@,
        }
    }

    /// The editor's caption for the alignment.
    pub fn label(&self) -> (r: &'static str)
        ensures
            r@ == self.label_of(),
    {
        match self {
            TextAlign::Left => "Слева",
            TextAlign::Center => "По центру",
            TextAlign::Right => "Справа",
        }
    }

    /// The GLua constant of the alignment.
    pub open spec fn glua_const_of(self) -> Seq<char> {
        match self {
            TextAlign::Left => "TEXT_ALIGN_LEFT"@,
            TextAlign::Center => "TEXT_ALIGN_CENTER"@,
            TextAlign::Right => "TEXT_ALIGN_RIGHT"@,
        }
    }

    /// The GLua constant of the alignment.
    pub fn glua_const(&self) -> (r: &'static str)
        ensures
            r@ == self.glua_const_of(),
    {
        match self {
            TextAlign::Left => "TEXT_ALIGN_LEFT",
            TextAlign::Center => "TEXT_ALIGN_CENTER",
            TextAlign::Right => "TEXT_ALIGN_RIGHT",
        }
    }
}

/// The direction of a gradient fill.
#[derive(Clone, Copy, Debug, PartialEq, Eq, Structural)]
pub enum GradientDirection {
    Horizontal,
    Vertical,
}

impl Default for GradientDirection {
    /// Vertical.
    fn default() -> (r: Self)
        ensures
            r == GradientDirection::Vertical,
    {
        GradientDirection::Vertical
    }
}

impl GradientDirection {
    /// The editor's caption for the direction.
    pub open spec fn label_of(self) -> Seq<char> {
        match self {
            GradientDirection::Horizontal => "Горизонтальный"@,
            GradientDirection::Vertical => "Вертикальный"@,
        }
    }

    /// The editor's caption for the direction.
    pub fn label(&self) -> (r: &'static str)
        ensures
            r@ == self.label_of(),
    {
        match self {
            GradientDirection::Horizontal => "Горизонтальный",
            GradientDirection::Vertical => "Вертикальный",
        }
    }
}

/// A background gradient between two colours, drawn in `steps` bands.
#[derive(Clone, Copy, Debug, PartialEq, Eq)]
pub struct GradientFill {
    pub enabled: bool,
    pub color_start: [u8; 4],
    pub color_end: [u8; 4],
    pub direction: GradientDirection,
    pub steps: u32,
}

/// The default number of gradient bands.
pub fn default_grad_steps() -> (r: u32)
    ensures
        r == 32,
{
    32
}

/// The default start colour of a gradient.
pub fn default_grad_start() -> (r: [u8; 4])
    ensures
        r@ == seq![40u8, 44, 52, 220],
{
    [40, 44, 52, 220]
}

/// The default end colour of a gradient.
pub fn default_grad_end() -> (r: [u8; 4])
    ensures
        r@ == seq![20u8, 22, 28, 220],
{
    [20, 22, 28, 220]
}

impl Default for GradientFill {
    /// A disabled vertical gradient of the default colours in 32 bands.
    fn default() -> (r: Self)
        ensures
            !r.enabled,
            r.color_start@ == seq![40u8, 44, 52, 220],
            r.color_end@ == seq![20u8, 22, 28, 220],
            r.direction == GradientDirection::Vertical,
            r.steps == 32,
    {
        GradientFill {
            enabled: false,
            color_start: default_grad_start(),
            color_end: default_grad_end(),
            direction: GradientDirection::Vertical,
            steps: default_grad_steps(),
        }
    }
}

/// A text drawn inside an element.
#[derive(Debug, PartialEq)]
pub struct TextLayer {
    pub id: u128,
    pub name: String,
    pub x: NumExpr,
    pub y: NumExpr,
    pub text: StrExpr,
    pub font_name: String,
    pub font_size: u32,
    pub text_color: [u8; 4],
    pub align: TextAlign,
}

impl Clone for TextLayer {
    fn clone(&self) -> (r: Self)
        ensures
            r == *self,
    {
        TextLayer {
            id: self.id,
            name: self.name.clone(),
            x: self.x.clone(),
            y: self.y.clone(),
            text: self.text.clone(),
            font_name: self.font_name.clone(),
            font_size: self.font_size,
            text_color: self.text_color,
            align: self.align,
        }
    }
}

impl TextLayer {
    /// A new text layer named `name` with a fresh id: empty white left-aligned
    /// text of size 16 in the default font, at 8, 8.
    pub fn new(name: &str) -> (r: TextLayer)
        ensures
            is_random_uuid(r.id),
            r.name@ == name@,
            r.x.is_fixed(0x41000000, "8"@),
            r.y.is_fixed(0x41000000, "8"@),
            r.text.is_empty_literal(),
            r.font_name@.len() == 0,
            r.font_size == 16,
            r.text_color@ == seq![255u8, 255, 255, 255],
            r.align == TextAlign::Left,
    {
        TextLayer {
            id: new_id(),
            name: String::from_str(name),
            x: NumExpr::Fixed(Num::new(0x41000000, "8")),
            y: NumExpr::Fixed(Num::new(0x41000000, "8")),
            text: StrExpr::Literal(String::new()),
            font_name: String::new(),
            font_size: 16,
            text_color: [255, 255, 255, 255],
            align: TextAlign::Left,
        }
    }
}

/// An image drawn inside an element: a local file shown in the editor and
/// the material path that the exported code loads.
#[derive(Debug, PartialEq)]
pub struct ImageLayer {
    pub id: u128,
    pub name: String,
    pub x: NumExpr,
    pub y: NumExpr,
    pub w: NumExpr,
    pub h: NumExpr,
    pub local_image_path: String,
    pub material_path: String,
    pub alpha: u8,
}

impl Clone for ImageLayer {
    fn clone(&self) -> (r: Self)
        ensures
            r == *self,
    {
        ImageLayer {
            id: self.id,
            name: self.name.clone(),
            x: self.x.clone(),
            y: self.y.clone(),
            w: self.w.clone(),
            h: self.h.clone(),
            local_image_path: self.local_image_path.clone(),
            material_path: self.material_path.clone(),
            alpha: self.alpha,
        }
    }
}

impl ImageLayer {
    /// A new image layer named `name` with a fresh id: 64 by 64 at 0, 0,
    /// opaque, with no image.
    pub fn new(name: &str) -> (r: ImageLayer)
        ensures
            is_random_uuid(r.id),
            r.name@ == name@,
            r.x.is_fixed(0, "0"@),
            r.y.is_fixed(0, "0"@),
            r.w.is_fixed(0x42800000, "64"@),
            r.h.is_fixed(0x42800000, "64"@),
            r.local_image_path@.len() == 0,
            r.material_path@.len() == 0,
            r.alpha == 255,
    {
        ImageLayer {
            id: new_id(),
            name: String::from_str(name),
            x: NumExpr::Fixed(Num::new(0, "0")),
            y: NumExpr::Fixed(Num::new(0, "0")),
            w: NumExpr::Fixed(Num::new(0x42800000, "64")),
            h: NumExpr::Fixed(Num::new(0x42800000, "64")),
            local_image_path: String::new(),
            material_path: String::new(),
            alpha: 255,
        }
    }

    /// Shows the file at `path` in the editor; when the layer has no material
    /// path yet, it gets the suggested one for that file.
    pub fn assign_local_image(&mut self, path: String)
        ensures
            final(self).local_image_path@ == path@,
            final(self).material_path@ == if old(self).material_path@.len() == 0 {
                material_for(path@)
            } else {
                old(self).material_path@
            },
            final(self).id == old(self).id,
            final(self).name == old(self).name,
            final(self).x == old(self).x,
            final(self).y == old(self).y,
            final(self).w == old(self).w,
            final(self).h == old(self).h,
            final(self).alpha == old(self).alpha,
    {
        if self.material_path.as_str().unicode_len() == 0 {
            self.material_path = crate::paths::suggest_material_path(path.as_str());
        }
        self.local_image_path = path;
    }

    /// The material path that the exported code loads: the layer's own, else
    /// the one suggested for its local file, else none (empty).
    pub open spec fn export_material_of(self) -> Seq<char> {
        if self.material_path@.len() != 0 {
            self.material_path@
        } else if self.local_image_path@.len() != 0 {
            material_for(self.local_image_path@)
        } else {
            Seq::empty()
        }
    }

    /// The material path that the exported code loads.
    pub fn export_material(&self) -> (r: String)
        ensures
            r@ == self.export_material_of(),
    {
        if self.material_path.as_str().unicode_len() != 0 {
            return self.material_path.clone();
        }
        if self.local_image_path.as_str().unicode_len() != 0 {
            return crate::paths::suggest_material_path(self.local_image_path.as_str());
        }
        String::new()
    }
}

/// Moves the layer at `idx` one place up (towards the start) or down, when
/// there is a place to move to; otherwise leaves the layers as they are.
/// Moving up a layer past the end is out of bounds.
pub fn reorder_layer<T>(layers: &mut Vec<T>, idx: usize, up: bool)
    requires
        up && idx > 0 ==> idx < old(layers)@.len(),
        !up ==> idx < usize::MAX,
    ensures
        final(layers)@ == if up && 0 < idx < old(layers)@.len() {
            old(layers)@.update(idx as int, old(layers)@[idx - 1]).update(idx - 1, old(layers)@[idx as int])
        } else if !up && idx + 1 < old(layers)@.len() {
            old(layers)@.update(idx as int, old(layers)@[idx + 1]).update(idx + 1, old(layers)@[idx as int])
        } else {
            old(layers)@
        },
{
    if up {
        if idx > 0 {
            let x = layers.remove(idx - 1);
            layers.insert(idx, x);
            assert(layers@ =~= old(layers)@.update(idx as int, old(layers)@[idx - 1]).update(idx - 1, old(layers)@[idx as int]));
        }
    } else if idx + 1 < layers.len() {
        let x = layers.remove(idx);
        layers.insert(idx + 1, x);
        assert(layers@ =~= old(layers)@.update(idx as int, old(layers)@[idx + 1]).update(idx + 1, old(layers)@[idx as int]));
    }
}

} // verus!
