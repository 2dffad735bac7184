//! The rendering model: colors, quads, and a renderer that records the
//! primitives issued to it, in order.

use vstd::prelude::*;
use crate::geometry::Rectangle;

verus! {

/// A display color with an alpha channel; alpha `0` is fully transparent.
#[derive(Clone, Copy, Debug, PartialEq, Eq, Structural)]
pub struct Color {
    pub r: u8,
    pub g: u8,
    pub b: u8,
    pub a: u8,
}

/// The fully transparent color.
pub open spec fn spec_transparent() -> Color {
    Color { r: 0, g: 0, b: 0, a: 0 }
}

impl Color {
    /// Returns the fully transparent color.
    pub fn transparent() -> (c: Color)
        ensures
            c == spec_transparent(),
    {
        Color { r: 0, g: 0, b: 0, a: 0 }
    }

    /// Whether the color draws nothing at all.
    pub open spec fn spec_is_transparent(self) -> bool {
        self.a == 0
    }
}

/// A rectangle primitive: a fill color inside the bounds and a border of the
/// given width and color around them.
#[derive(Clone, Copy, Debug, PartialEq, Eq, Structural)]
pub struct Quad {
    pub bounds: Rectangle,
    pub border_color: Color,
    pub border_width: u32,
    pub fill: Color,
}

/// The shape the mouse cursor takes over a widget.
#[derive(Clone, Copy, Debug, PartialEq, Eq, Structural)]
pub enum Interaction {
    Idle,
    Pointer,
    Grab,
    Text,
}

/// The style context a draw pass runs under.
#[derive(Clone, Copy, Debug, PartialEq, Eq, Structural)]
pub struct Style {
    pub text_color: Color,
}

/// A renderer that records every primitive issued to it, in order. Its view
/// is that sequence of primitives.
#[derive(Clone, Debug, PartialEq)]
pub struct Renderer {
    commands: Vec<Quad>,
}

impl View for Renderer {
    type V = Seq<Quad>;

    closed spec fn view(&self) -> Seq<Quad> {
        self.commands@
    }
}

impl Renderer {
    /// A renderer that has recorded nothing yet.
    pub fn new() -> (r: Renderer)
        ensures
            r@ == Seq::<Quad>::empty(),
    {
        Renderer { commands: Vec::new() }
    }

    /// Records one quad.
    pub fn fill_quad(&mut self, quad: Quad)
        ensures
            final(self)@ == old(self)@.push(quad),
    {
        self.commands.push(quad);
    }

    /// The primitives recorded so far, oldest first.
    pub fn commands(&self) -> (c: &Vec<Quad>)
        ensures
            c@ == self@,
    {
        &self.commands
    }
}

} // verus!
