//! Colours, as the components choose them.
use vstd::prelude::*;

verus! {

/// An RGBA colour with 8 bits per channel.
#[derive(Clone, Copy, PartialEq, Eq, Structural, Debug)]
pub struct Color {
    pub r: u8,
    pub g: u8,
    pub b: u8,
    pub a: u8,
}

/// The opaque colour with the given channels.
pub open spec fn rgb(r: u8, g: u8, b: u8) -> Color {
    Color { r, g, b, a: 255 }
}

/// The fully transparent colour.
pub open spec fn transparent() -> Color {
    Color { r: 0, g: 0, b: 0, a: 0 }
}

impl Color {
    /// The opaque colour with the given channels.
    pub fn from_rgb(r: u8, g: u8, b: u8) -> (c: Color)
        ensures
            c == rgb(r, g, b),
    {
        Color { r, g, b, a: 255 }
    }

    /// The colour with the given channels and opacity.
    pub fn from_rgba(r: u8, g: u8, b: u8, a: u8) -> (c: Color)
        ensures
            c == (Color { r, g, b, a }),
    {
        Color { r, g, b, a }
    }

    /// The fully transparent colour.
    pub fn transparent() -> (c: Color)
        ensures
            c == transparent(),
    {
        Color { r: 0, g: 0, b: 0, a: 0 }
    }
}

/// The opaque colour of an `[r, g, b]` triple.
pub fn color(channels: [u8; 3]) -> (c: Color)
    ensures
        c == rgb(channels@[0], channels@[1], channels@[2]),
{
    Color::from_rgb(channels[0], channels[1], channels[2])
}

/// The accent colour given to apps that do not bring one.
pub fn default_app_accent() -> (c: Color)
    ensures
        c == rgb(0, 125, 215),
{
    Color::from_rgb(0, 125, 215)
}

} // verus!
