//! Colors, modifier flags and cell styles.

use vstd::prelude::*;

verus! {

/// A 24-bit RGB color.
#[derive(Clone, Copy, Debug, PartialEq, Eq, Default, Structural)]
pub struct Color {
    pub r: u8,
    pub g: u8,
    pub b: u8,
}

/// Linear interpolation of one channel, with `t` in thousandths of the way
/// from `a` to `b`, truncated toward `a`.
pub open spec fn lerp_channel(a: int, b: int, t: int) -> int {
    if b >= a {
        a + (b - a) * t / 1000
    } else {
        a - (a - b) * t / 1000
    }
}

impl Color {
    pub fn rgb(r: u8, g: u8, b: u8) -> (c: Color)
        ensures
            c == (Color { r, g, b }),
    {
        Color { r, g, b }
    }

    pub fn black() -> (c: Color)
        ensures
            c == (Color { r: 0u8, g: 0u8, b: 0u8 }),
    {
        Color { r: 0, g: 0, b: 0 }
    }

    pub fn white() -> (c: Color)
        ensures
            c == (Color { r: 255u8, g: 255u8, b: 255u8 }),
    {
        Color { r: 255, g: 255, b: 255 }
    }

    pub fn red() -> (c: Color)
        ensures
            c == (Color { r: 255u8, g: 0u8, b: 0u8 }),
    {
        Color { r: 255, g: 0, b: 0 }
    }

    pub fn green() -> (c: Color)
        ensures
            c == (Color { r: 0u8, g: 255u8, b: 0u8 }),
    {
        Color { r: 0, g: 255, b: 0 }
    }

    pub fn blue() -> (c: Color)
        ensures
            c == (Color { r: 0u8, g: 0u8, b: 255u8 }),
    {
        Color { r: 0, g: 0, b: 255 }
    }

    pub fn yellow() -> (c: Color)
        ensures
            c == (Color { r: 255u8, g: 255u8, b: 0u8 }),
    {
        Color { r: 255, g: 255, b: 0 }
    }

    pub fn cyan() -> (c: Color)
        ensures
            c == (Color { r: 0u8, g: 255u8, b: 255u8 }),
    {
        Color { r: 0, g: 255, b: 255 }
    }

    pub fn magenta() -> (c: Color)
        ensures
            c == (Color { r: 255u8, g: 0u8, b: 255u8 }),
    {
        Color { r: 255, g: 0, b: 255 }
    }

    pub fn gray() -> (c: Color)
        ensures
            c == (Color { r: 128u8, g: 128u8, b: 128u8 }),
    {
        Color { r: 128, g: 128, b: 128 }
    }

    /// Interpolate toward `other`, with `t` in thousandths: `0` gives `self`,
    /// `1000` gives `other`.  Values above `1000` are clamped.
    pub fn lerp(&self, other: &Color, t: u16) -> (c: Color)
        ensures
            ({
                let tc = if t > 1000 {
                    1000int
                } else {
                    t as int
                };
                &&& c.r == lerp_channel(self.r as int, other.r as int, tc)
                &&& c.g == lerp_channel(self.g as int, other.g as int, tc)
                &&& c.b == lerp_channel(self.b as int, other.b as int, tc)
            }),
    {
        let tc = if t > 1000 {
            1000u16
        } else {
            t
        };
        Color {
            r: lerp_channel_u8(self.r, other.r, tc),
            g: lerp_channel_u8(self.g, other.g, tc),
            b: lerp_channel_u8(self.b, other.b, tc),
        }
    }
}

/// One channel of `Color::lerp`; `t` is in thousandths and at most 1000.
fn lerp_channel_u8(a: u8, b: u8, t: u16) -> (r: u8)
    requires
        t <= 1000,
    ensures
        r == lerp_channel(a as int, b as int, t as int),
{
    let ai = a as u32;
    let bi = b as u32;
    let ti = t as u32;
    if bi >= ai {
        proof {
            assert((bi - ai) * ti <= 255 * 1000 && (bi - ai) * ti / 1000 <= 255 - ai)
                by (nonlinear_arith)
                requires
                    0 <= ai <= 255,
                    ai <= bi <= 255,
                    0 <= ti <= 1000,
            ;
        }
        (ai + (bi - ai) * ti / 1000) as u8
    } else {
        proof {
            assert((ai - bi) * ti <= 255 * 1000 && (ai - bi) * ti / 1000 <= ai)
                by (nonlinear_arith)
                requires
                    0 <= bi < ai <= 255,
                    0 <= ti <= 1000,
            ;
        }
        (ai - (ai - bi) * ti / 1000) as u8
    }
}

/// A set of text attributes, one bit each.
#[derive(Clone, Copy, Debug, PartialEq, Eq, Default, Structural)]
pub struct Modifier {
    pub bits: u8,
}

impl Modifier {
    pub fn bold() -> (m: Modifier)
        ensures
            m.bits == 0x01u8,
    {
        Modifier { bits: 0x01 }
    }

    pub fn dim() -> (m: Modifier)
        ensures
            m.bits == 0x02u8,
    {
        Modifier { bits: 0x02 }
    }

    pub fn italic() -> (m: Modifier)
        ensures
            m.bits == 0x04u8,
    {
        Modifier { bits: 0x04 }
    }

    pub fn underline() -> (m: Modifier)
        ensures
            m.bits == 0x08u8,
    {
        Modifier { bits: 0x08 }
    }

    pub fn blink() -> (m: Modifier)
        ensures
            m.bits == 0x10u8,
    {
        Modifier { bits: 0x10 }
    }

    pub fn reverse() -> (m: Modifier)
        ensures
            m.bits == 0x20u8,
    {
        Modifier { bits: 0x20 }
    }

    pub fn hidden() -> (m: Modifier)
        ensures
            m.bits == 0x40u8,
    {
        Modifier { bits: 0x40 }
    }

    pub fn strikethrough() -> (m: Modifier)
        ensures
            m.bits == 0x80u8,
    {
        Modifier { bits: 0x80 }
    }

    /// The empty set.
    pub fn empty() -> (m: Modifier)
        ensures
            m.bits == 0,
    {
        Modifier { bits: 0 }
    }

    /// Whether every bit of `other` is set in `self`.
    pub fn contains(&self, other: Modifier) -> (r: bool)
        ensures
            r == (self.bits & other.bits == other.bits),
    {
        self.bits & other.bits == other.bits
    }

    /// The union of the two sets.
    pub fn union(&self, other: Modifier) -> (m: Modifier)
        ensures
            m.bits == (self.bits | other.bits),
    {
        Modifier { bits: self.bits | other.bits }
    }

    /// The set difference `self \ other`.
    pub fn difference(&self, other: Modifier) -> (m: Modifier)
        ensures
            m.bits == (self.bits & !other.bits),
    {
        Modifier { bits: self.bits & !other.bits }
    }

    /// Whether no bit is set.
    pub fn is_empty(&self) -> (r: bool)
        ensures
            r == (self.bits == 0),
    {
        self.bits == 0
    }

    /// The raw bit pattern.
    pub fn bits(&self) -> (r: u8)
        ensures
            r == self.bits,
    {
        self.bits
    }
}

/// The style of one cell: optional foreground and background colors and a
/// set of modifiers.  Two styles are equal exactly when all fields match.
#[derive(Clone, Copy, Debug, PartialEq, Eq, Default, Structural)]
pub struct Style {
    pub fg: Option<Color>,
    pub bg: Option<Color>,
    pub modifiers: Modifier,
}

impl Style {
    pub fn new() -> (s: Style)
        ensures
            s.fg is None,
            s.bg is None,
            s.modifiers.bits == 0,
    {
        Style { fg: None, bg: None, modifiers: Modifier { bits: 0 } }
    }

    /// This style with the foreground set.
    pub fn fg(self, color: Color) -> (s: Style)
        ensures
            s == (Style { fg: Some(color), ..self }),
    {
        Style { fg: Some(color), ..self }
    }

    /// This style with the background set.
    pub fn bg(self, color: Color) -> (s: Style)
        ensures
            s == (Style { bg: Some(color), ..self }),
    {
        Style { bg: Some(color), ..self }
    }

    /// This style with the given modifier bits added.
    pub fn add_modifier(self, modifier: Modifier) -> (s: Style)
        ensures
            s.fg == self.fg,
            s.bg == self.bg,
            s.modifiers.bits == (self.modifiers.bits | modifier.bits),
    {
        Style { modifiers: Modifier { bits: self.modifiers.bits | modifier.bits }, ..self }
    }

    /// This style with the given modifier bits removed.
    pub fn remove_modifier(self, modifier: Modifier) -> (s: Style)
        ensures
            s.fg == self.fg,
            s.bg == self.bg,
            s.modifiers.bits == (self.modifiers.bits & !modifier.bits),
    {
        Style { modifiers: Modifier { bits: self.modifiers.bits & !modifier.bits }, ..self }
    }
}

} // verus!
