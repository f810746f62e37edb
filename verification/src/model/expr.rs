//! Position and size expressions of elements, and text expressions.

use vstd::prelude::*;
use vstd::string::*;
use crate::text::{escape_lua, push_escaped};

verus! {

/// The axis that a position or size expression stands for.
#[derive(Clone, Copy, Debug, PartialEq, Eq, Structural)]
pub enum NumAxis {
    X,
    Y,
    W,
    H,
}

impl NumAxis {
    /// Whether the axis runs along the width (X and W).
    pub open spec fn horizontal(self) -> bool {
        self is X || self is W
    }

    /// Whether the axis runs along the width (X and W).
    pub fn is_horizontal(self) -> (r: bool)
        ensures
            r == self.horizontal(),
    {
        match self {
            NumAxis::X | NumAxis::W => true,
            _ => false,
        }
    }
}

/// A number of a position or size expression. The editor keeps the number as
/// a single-precision value, here its bit pattern `bits`; `glua` is the GLua
/// literal that the exporter writes for it: for a fixed number the value
/// itself (a whole number without decimals, any other with two), for a
/// percentage the fraction `percent / 100` with four decimals. The editor
/// fills both.
#[derive(Debug, PartialEq)]
pub struct Num {
    pub bits: u32,
    pub glua: String,
}

impl Clone for Num {
    fn clone(&self) -> (r: Self)
        ensures
            r == *self,
    {
        Num { bits: self.bits, glua: self.glua.clone() }
    }
}

/// A length of the design that the exporter rounds to a whole number: the
/// editor keeps it as a single-precision value, here its bit pattern `bits`;
/// `whole` is its GLua text rounded to no decimals and `positive` tells
/// whether it is greater than zero. The editor fills all three.
#[derive(Debug, PartialEq)]
pub struct Measure {
    pub bits: u32,
    pub whole: String,
    pub positive: bool,
}

impl Clone for Measure {
    fn clone(&self) -> (r: Self)
        ensures
            r == *self,
    {
        Measure { bits: self.bits, whole: self.whole.clone(), positive: self.positive }
    }
}

impl Num {
    /// Whether the number has the bit pattern `bits` and the GLua text `glua`.
    pub open spec fn is(self, bits: u32, glua: Seq<char>) -> bool {
        self.bits == bits && self.glua@ == glua
    }

    /// A number from its bit pattern and its GLua text.
    pub fn new(bits: u32, glua: &str) -> (r: Num)
        ensures
            r.is(bits, glua@),
    {
        Num { bits, glua: String::from_str(glua) }
    }
}

impl Measure {
    /// Whether the length has the bit pattern `bits`, the rounded text
    /// `whole` and the sign `positive`.
    pub open spec fn is(self, bits: u32, whole: Seq<char>, positive: bool) -> bool {
        self.bits == bits && self.whole@ == whole && self.positive == positive
    }

    /// A length from its bit pattern, rounded text and sign.
    pub fn new(bits: u32, whole: &str, positive: bool) -> (r: Measure)
        ensures
            r.is(bits, whole@, positive),
    {
        Measure { bits, whole: String::from_str(whole), positive }
    }
}

/// A position or size: a fixed number of pixels, the screen size, a
/// percentage of the screen or of the parent, or a custom GLua expression.
#[derive(Debug, PartialEq)]
pub enum NumExpr {
    Fixed(Num),
    ScrW,
    ScrH,
    ScrWPercent(Num),
    ScrHPercent(Num),
    ParentWPercent(Num),
    ParentHPercent(Num),
    Custom(String),
}

impl Clone for NumExpr {
    fn clone(&self) -> (r: Self)
        ensures
            r == *self,
    {
        match self {
            NumExpr::Fixed(n) => NumExpr::Fixed(n.clone()),
            NumExpr::ScrW => NumExpr::ScrW,
            NumExpr::ScrH => NumExpr::ScrH,
            NumExpr::ScrWPercent(n) => NumExpr::ScrWPercent(n.clone()),
            NumExpr::ScrHPercent(n) => NumExpr::ScrHPercent(n.clone()),
            NumExpr::ParentWPercent(n) => NumExpr::ParentWPercent(n.clone()),
            NumExpr::ParentHPercent(n) => NumExpr::ParentHPercent(n.clone()),
            NumExpr::Custom(s) => NumExpr::Custom(s.clone()),
        }
    }
}

impl Default for NumExpr {
    /// The fixed number zero.
    fn default() -> (r: Self)
        ensures
            r.is_fixed(0, "0"@),
    {
        NumExpr::Fixed(Num::new(0, "0"))
    }
}

impl NumExpr {
    /// Whether the expression is the fixed number with bit pattern `bits`
    /// and GLua text `glua`.
    pub open spec fn is_fixed(self, bits: u32, glua: Seq<char>) -> bool {
        self matches NumExpr::Fixed(n) && n.is(bits, glua)
    }

    /// The editor's caption for the kind of the expression.
    pub open spec fn label_of(self) -> Seq<char> {
        match self {
            NumExpr::Fixed(_) => "Число"@,
            NumExpr::ScrW => "Screen Width"@,
            NumExpr::ScrH => "Screen Height"@,
            NumExpr::ScrWPercent(_) => "% от ширины экрана"@,
            NumExpr::ScrHPercent(_) => "% от высоты экрана"@,
            NumExpr::ParentWPercent(_) => "% от ширины родителя"@,
            NumExpr::ParentHPercent(_) => "% от высоты родителя"@,
            NumExpr::Custom(_) => "Выражение"@,
        }
    }

    /// The editor's caption for the kind of the expression.
    pub fn label(&self) -> (r: &'static str)
        ensures
            r@ == self.label_of(),
    {
        match self {
            NumExpr::Fixed(_) => "Число",
            NumExpr::ScrW => "Screen Width",
            NumExpr::ScrH => "Screen Height",
            NumExpr::ScrWPercent(_) => "% от ширины экрана",
            NumExpr::ScrHPercent(_) => "% от высоты экрана",
            NumExpr::ParentWPercent(_) => "% от ширины родителя",
            NumExpr::ParentHPercent(_) => "% от высоты родителя",
            NumExpr::Custom(_) => "Выражение",
        }
    }

    /// The caption inside a parent, where a screen percentage reads as a
    /// percentage of the parent.
    pub open spec fn label_in_parent_of(self) -> Seq<char> {
        match self {
            NumExpr::ScrWPercent(_) => "% от ширины родителя"@,
            NumExpr::ScrHPercent(_) => "% от высоты родителя"@,
            _ => self.label_of(),
        }
    }

    /// The caption inside a parent, where a screen percentage reads as a
    /// percentage of the parent.
    pub fn label_in_parent(&self) -> (r: &'static str)
        ensures
            r@ == self.label_in_parent_of(),
    {
        match self {
            NumExpr::ScrWPercent(_) => "% от ширины родителя",
            NumExpr::ScrHPercent(_) => "% от высоты родителя",
            _ => self.label(),
        }
    }

    /// The GLua expression for a top-level element: percentages of the
    /// parent count as percentages of the screen.
    pub open spec fn glua(self) -> Seq<char> {
        match self {
            NumExpr::Fixed(n) => n.glua@,
            NumExpr::ScrW => "ScrW()"@,
            NumExpr::ScrH => "ScrH()"@,
            NumExpr::ScrWPercent(p) => "ScrW() * "@ + p.glua@,
            NumExpr::ScrHPercent(p) => "ScrH() * "@ + p.glua@,
            NumExpr::ParentWPercent(p) => "ScrW() * "@ + p.glua@,
            NumExpr::ParentHPercent(p) => "ScrH() * "@ + p.glua@,
            NumExpr::Custom(s) => s@,
        }
    }

    /// The GLua expression for a top-level element.
    pub fn to_glua(&self) -> (r: String)
        ensures
            r@ == self.glua(),
    {
        match self {
            NumExpr::Fixed(n) => n.glua.clone(),
            NumExpr::ScrW => String::from_str("ScrW()"),
            NumExpr::ScrH => String::from_str("ScrH()"),
            NumExpr::ScrWPercent(p) | NumExpr::ParentWPercent(p) => {
                String::from_str("ScrW() * ").concat(p.glua.as_str())
            },
            NumExpr::ScrHPercent(p) | NumExpr::ParentHPercent(p) => {
                String::from_str("ScrH() * ").concat(p.glua.as_str())
            },
            NumExpr::Custom(s) => s.clone(),
        }
    }

    /// The GLua expression inside `Paint = function(self, w, h)`, where
    /// percentages are of the panel's own `w` and `h`.
    pub open spec fn glua_in_parent(self) -> Seq<char> {
        match self {
            NumExpr::Fixed(n) => n.glua@,
            NumExpr::ScrW => "ScrW()"@,
            NumExpr::ScrH => "ScrH()"@,
            NumExpr::ScrWPercent(p) => "w * "@ + p.glua@,
            NumExpr::ParentWPercent(p) => "w * "@ + p.glua@,
            NumExpr::ScrHPercent(p) => "h * "@ + p.glua@,
            NumExpr::ParentHPercent(p) => "h * "@ + p.glua@,
            NumExpr::Custom(s) => s@,
        }
    }

    /// The GLua expression inside `Paint = function(self, w, h)`.
    pub fn to_glua_in_parent(&self) -> (r: String)
        ensures
            r@ == self.glua_in_parent(),
    {
        match self {
            NumExpr::Fixed(n) => n.glua.clone(),
            NumExpr::ScrW => String::from_str("ScrW()"),
            NumExpr::ScrH => String::from_str("ScrH()"),
            NumExpr::ScrWPercent(p) | NumExpr::ParentWPercent(p) => {
                String::from_str("w * ").concat(p.glua.as_str())
            },
            NumExpr::ScrHPercent(p) | NumExpr::ParentHPercent(p) => {
                String::from_str("h * ").concat(p.glua.as_str())
            },
            NumExpr::Custom(s) => s.clone(),
        }
    }

    /// The GLua expression for a child of the panel held in the local
    /// `parent_var`: percentages, and the screen size along the same axis,
    /// are taken of the parent's `GetWide()` or `GetTall()`; a width
    /// percentage on a vertical axis takes the parent's height, and the
    /// other way round.
    pub open spec fn glua_for_child(self, parent_var: Seq<char>, axis: NumAxis) -> Seq<char> {
        let wide = parent_var + ":GetWide()"@;
        let tall = parent_var + ":GetTall()"@;
        match self {
            NumExpr::Fixed(n) => n.glua@,
            NumExpr::ParentWPercent(p) => if axis.horizontal() { wide + " * "@ + p.glua@ } else { tall + " * "@ + p.glua@ },
            NumExpr::ScrWPercent(p) => if axis.horizontal() { wide + " * "@ + p.glua@ } else { tall + " * "@ + p.glua@ },
            NumExpr::ParentHPercent(p) => if !axis.horizontal() { tall + " * "@ + p.glua@ } else { wide + " * "@ + p.glua@ },
            NumExpr::ScrHPercent(p) => if !axis.horizontal() { tall + " * "@ + p.glua@ } else { wide + " * "@ + p.glua@ },
            NumExpr::ScrW => if axis.horizontal() { wide } else { "ScrW()"@ },
            NumExpr::ScrH => if !axis.horizontal() { tall } else { "ScrH()"@ },
            NumExpr::Custom(s) => s@,
        }
    }

    /// The GLua expression for a child of the panel held in `parent_var`.
    pub fn to_glua_for_child(&self, parent_var: &str, axis: NumAxis) -> (r: String)
        ensures
            r@ == self.glua_for_child(parent_var@, axis),
    {
        let wide = String::from_str(parent_var).concat(":GetWide()");
        let tall = String::from_str(parent_var).concat(":GetTall()");
        let horizontal = axis.is_horizontal();
        match self {
            NumExpr::Fixed(n) => n.glua.clone(),
            NumExpr::ParentWPercent(p) | NumExpr::ScrWPercent(p) => {
                if horizontal {
                    wide.concat(" * ").concat(p.glua.as_str())
                } else {
                    tall.concat(" * ").concat(p.glua.as_str())
                }
            },
            NumExpr::ParentHPercent(p) | NumExpr::ScrHPercent(p) => {
                if !horizontal {
                    tall.concat(" * ").concat(p.glua.as_str())
                } else {
                    wide.concat(" * ").concat(p.glua.as_str())
                }
            },
            NumExpr::ScrW => if horizontal { wide } else { String::from_str("ScrW()") },
            NumExpr::ScrH => if !horizontal { tall } else { String::from_str("ScrH()") },
            NumExpr::Custom(s) => s.clone(),
        }
    }
}

/// A text: a literal, a property of the local player, or a custom GLua
/// expression.
#[derive(Debug, PartialEq)]
pub enum StrExpr {
    Literal(String),
    PlayerName,
    SteamID,
    Health,
    Armor,
    Custom(String),
}

impl Clone for StrExpr {
    fn clone(&self) -> (r: Self)
        ensures
            r == *self,
    {
        match self {
            StrExpr::Literal(s) => StrExpr::Literal(s.clone()),
            StrExpr::PlayerName => StrExpr::PlayerName,
            StrExpr::SteamID => StrExpr::SteamID,
            StrExpr::Health => StrExpr::Health,
            StrExpr::Armor => StrExpr::Armor,
            StrExpr::Custom(s) => StrExpr::Custom(s.clone()),
        }
    }
}

impl Default for StrExpr {
    /// The empty literal.
    fn default() -> (r: Self)
        ensures
            r.is_empty_literal(),
    {
        StrExpr::Literal(String::new())
    }
}

/// A double-quoted Lua string literal of `s`.
pub open spec fn lua_string(s: Seq<char>) -> Seq<char> {
    "\""@ + escape_lua(s) + "\""@
}

/// A double-quoted Lua string literal of `s`.
pub fn format_lua_string(s: &str) -> (r: String)
    ensures
        r@ == lua_string(s@),
{
    let mut r = String::from_str("\"");
    push_escaped(&mut r, s);
    r.append("\"");
    r
}

impl StrExpr {
    /// Whether the text is the empty literal.
    pub open spec fn is_empty_literal(self) -> bool {
        self matches StrExpr::Literal(s) && s@.len() == 0
    }

    /// The editor's caption for the kind of the text.
    pub open spec fn label_of(self) -> Seq<char> {
        match self {
            StrExpr::Literal(_) => "Текст"@,
            StrExpr::PlayerName => "PlayerName"@,
            StrExpr::SteamID => "SteamID"@,
            StrExpr::Health => "Health"@,
            StrExpr::Armor => "Armor"@,
            StrExpr::Custom(_) => "Выражение"@,
        }
    }

    /// The editor's caption for the kind of the text.
    pub fn label(&self) -> (r: &'static str)
        ensures
            r@ == self.label_of(),
    {
        match self {
            StrExpr::Literal(_) => "Текст",
            StrExpr::PlayerName => "PlayerName",
            StrExpr::SteamID => "SteamID",
            StrExpr::Health => "Health",
            StrExpr::Armor => "Armor",
            StrExpr::Custom(_) => "Выражение",
        }
    }

    /// What the editor shows for the text: the literal or the custom code
    /// as written, sample values for the player's properties.
    pub open spec fn preview_of(self) -> Seq<char> {
        match self {
            StrExpr::Literal(s) => s@,
            StrExpr::PlayerName => "PlayerName"@,
            StrExpr::SteamID => "STEAM_0:0:12345"@,
            StrExpr::Health => "100"@,
            StrExpr::Armor => "50"@,
            StrExpr::Custom(s) => s@,
        }
    }

    /// What the editor shows for the text.
    pub fn preview(&self) -> (r: String)
        ensures
            r@ == self.preview_of(),
    {
        match self {
            StrExpr::Literal(s) => s.clone(),
            StrExpr::PlayerName => String::from_str("PlayerName"),
            StrExpr::SteamID => String::from_str("STEAM_0:0:12345"),
            StrExpr::Health => String::from_str("100"),
            StrExpr::Armor => String::from_str("50"),
            StrExpr::Custom(s) => s.clone(),
        }
    }

    /// The GLua expression of the text: a quoted literal, a call on the
    /// local player, or the custom code as written.
    pub open spec fn glua(self) -> Seq<char> {
        match self {
            StrExpr::Literal(s) => lua_string(s@),
            StrExpr::PlayerName => "LocalPlayer():Nick()"@,
            StrExpr::SteamID => "LocalPlayer():SteamID()"@,
            StrExpr::Health => "LocalPlayer():Health()"@,
            StrExpr::Armor => "LocalPlayer():Armor()"@,
            StrExpr::Custom(s) => s@,
        }
    }

    /// The GLua expression of the text.
    pub fn to_glua(&self) -> (r: String)
        ensures
            r@ == self.glua(),
    {
        match self {
            StrExpr::Literal(s) => format_lua_string(s.as_str()),
            StrExpr::PlayerName => String::from_str("LocalPlayer():Nick()"),
            StrExpr::SteamID => String::from_str("LocalPlayer():SteamID()"),
            StrExpr::Health => String::from_str("LocalPlayer():Health()"),
            StrExpr::Armor => String::from_str("LocalPlayer():Armor()"),
            StrExpr::Custom(s) => s.clone(),
        }
    }
}

} // verus!
