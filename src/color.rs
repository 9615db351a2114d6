use vstd::prelude::*;

verus! {

/// An RGB color with one byte per channel.
#[derive(Clone, Copy, Debug, PartialEq, Eq, Structural)]
pub struct Color {
    pub r: u8,
    pub g: u8,
    pub b: u8,
}

/// The value of a channel level once it is held to the range `0..=255`.
pub open spec fn clamp_channel(v: int) -> int {
    if v < 0 {
        0
    } else if v > 255 {
        255
    } else {
        v
    }
}

/// Magenta, a color no lit scene of this renderer is meant to show.
pub open spec fn err_color_spec() -> Color {
    Color { r: 255, g: 0, b: 255 }
}

/// Black.
pub open spec fn background_spec() -> Color {
    Color { r: 0, g: 0, b: 0 }
}

impl Color {
    /// The reserved color that marks a shading path that should not be reached.
    pub fn err_color() -> (c: Color)
        ensures
            c == err_color_spec(),
    {
        Color { r: 255, g: 0, b: 255 }
    }

    /// The color of a ray that hits nothing.
    pub fn background() -> (c: Color)
        ensures
            c == background_spec(),
    {
        Color { r: 0, g: 0, b: 0 }
    }

    pub fn new(r: u8, g: u8, b: u8) -> (c: Color)
        ensures
            c.r == r && c.g == g && c.b == b,
    {
        Color { r, g, b }
    }

    /// The channels in the order red, green, blue.
    pub fn raw(&self) -> (a: [u8; 3])
        ensures
            a@ == seq![self.r, self.g, self.b],
    {
        [self.r, self.g, self.b]
    }

    /// Holds a channel level computed by shading to the range of a byte.
    pub fn channel(v: i64) -> (c: u8)
        ensures
            c as int == clamp_channel(v as int),
    {
        if v < 0 {
            0
        } else if v > 255 {
            255
        } else {
            v as u8
        }
    }

    /// The color whose channels are the given levels, each held to `0..=255`.
    pub fn from_levels(r: i64, g: i64, b: i64) -> (c: Color)
        ensures
            c.r as int == clamp_channel(r as int),
            c.g as int == clamp_channel(g as int),
            c.b as int == clamp_channel(b as int),
    {
        Color { r: Color::channel(r), g: Color::channel(g), b: Color::channel(b) }
    }
}

} // verus!
