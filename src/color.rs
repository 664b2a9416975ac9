//! Colors: three named ones and any custom mix of red, green and blue.
use vstd::prelude::*;
use crate::text::{nat_text, nat_to_text};

verus! {

#[derive(Clone, Copy, Debug, PartialEq, Eq, Structural)]
pub enum ColorType {
    Red,
    Green,
    Blue,
    Custom,
}

#[derive(Clone, Copy, Debug)]
pub struct Color {
    pub color_type: ColorType,
    pub r: u8,
    pub g: u8,
    pub b: u8,
}

impl Color {
    /// A named color holds its own channels; a custom one may hold any.
    pub open spec fn wf(&self) -> bool {
        match self.color_type {
            ColorType::Red => self.r == 255 && self.g == 0 && self.b == 0,
            ColorType::Green => self.r == 0 && self.g == 255 && self.b == 0,
            ColorType::Blue => self.r == 0 && self.g == 0 && self.b == 255,
            ColorType::Custom => true,
        }
    }
}

/// The channels written as `(r, g, b)`.
pub open spec fn rgb_text(c: Color) -> Seq<char> {
    "("@ + nat_text(c.r as nat) + ", "@ + nat_text(c.g as nat) + ", "@ + nat_text(c.b as nat)
        + ")"@
}

/// The mean of three channels, rounded down.
pub open spec fn mean_of(r: u8, g: u8, b: u8) -> nat {
    ((r + g + b) / 3) as nat
}

impl Color {
    pub fn red() -> (c: Color)
        ensures
            c.wf(),
            c.color_type == ColorType::Red,
    {
        Color { color_type: ColorType::Red, r: 255, g: 0, b: 0 }
    }

    pub fn green() -> (c: Color)
        ensures
            c.wf(),
            c.color_type == ColorType::Green,
    {
        Color { color_type: ColorType::Green, r: 0, g: 255, b: 0 }
    }

    pub fn blue() -> (c: Color)
        ensures
            c.wf(),
            c.color_type == ColorType::Blue,
    {
        Color { color_type: ColorType::Blue, r: 0, g: 0, b: 255 }
    }

    pub fn rgb(r: u8, g: u8, b: u8) -> (c: Color)
        ensures
            c.wf(),
            c.color_type == ColorType::Custom,
            c.r == r,
            c.g == g,
            c.b == b,
    {
        Color { color_type: ColorType::Custom, r, g, b }
    }

    pub fn to_rgb(&self) -> (out: String)
        ensures
            out@ == rgb_text(*self),
    {
        let mut s = "(".to_string();
        s.append(nat_to_text(self.r as u32).as_str());
        s.append(", ");
        s.append(nat_to_text(self.g as u32).as_str());
        s.append(", ");
        s.append(nat_to_text(self.b as u32).as_str());
        s.append(")");
        s
    }

    pub fn brightness(&self) -> (v: u8)
        ensures
            v as nat == mean_of(self.r, self.g, self.b),
    {
        ((self.r as u16 + self.g as u16 + self.b as u16) / 3) as u8
    }
}

/// The brightness does not depend on which channel holds which value, and
/// three equal channels have that value as their brightness.
pub proof fn lemma_brightness_symmetric(r: u8, g: u8, b: u8)
    ensures
        mean_of(r, g, b) == mean_of(g, r, b),
        mean_of(r, g, b) == mean_of(r, b, g),
        mean_of(r, g, b) == mean_of(b, g, r),
        mean_of(r, r, r) == r as nat,
        mean_of(r, g, b) <= 255,
{
}

} // verus!
