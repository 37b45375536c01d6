//! Drawing styles handed to the renderer: colours, fonts and the pipeline
//! state that bundles them.

use vstd::prelude::*;

verus! {

/// An RGB colour.
#[derive(Clone, Copy, PartialEq, Eq, Structural, Debug)]
pub struct CssColor {
    r: u8,
    g: u8,
    b: u8,
}

impl CssColor {
    /// The colour with the given red, green and blue parts.
    pub fn new(r: u8, g: u8, b: u8) -> (c: CssColor)
        ensures
            c.red() == r,
            c.green() == g,
            c.blue() == b,
    {
        CssColor { r, g, b }
    }

    /// Red part.
    pub closed spec fn red(&self) -> u8 {
        self.r
    }

    /// Green part.
    pub closed spec fn green(&self) -> u8 {
        self.g
    }

    /// Blue part.
    pub closed spec fn blue(&self) -> u8 {
        self.b
    }

    /// The red, green and blue parts.
    pub fn rgb(&self) -> (r: (u8, u8, u8))
        ensures
            r == (self.red(), self.green(), self.blue()),
    {
        (self.r, self.g, self.b)
    }
}

/// A font: a size in pixels and a family name.
#[derive(Clone, Copy, Debug)]
pub struct CssFont {
    size: u32,
    family: &'static str,
}

impl CssFont {
    /// The font of the given family at `size` pixels.
    pub fn new(size: u32, family: &'static str) -> (f: CssFont)
        ensures
            f.size_spec() == size,
            f.family_spec() == family@,
    {
        CssFont { size, family }
    }

    /// The monospace font used for on-screen text, at `size` pixels.
    pub fn monospace(size: u32) -> (f: CssFont)
        ensures
            f.size_spec() == size,
            f.family_spec() == "Courier New"@,
    {
        Self::new(size, "Courier New")
    }

    /// Size in pixels.
    pub closed spec fn size_spec(&self) -> u32 {
        self.size
    }

    /// Family name.
    pub closed spec fn family_spec(&self) -> Seq<char> {
        self.family@
    }

    /// The size in pixels.
    pub fn size(&self) -> (r: u32)
        ensures
            r == self.size_spec(),
    {
        self.size
    }

    /// The family name.
    pub fn family(&self) -> (r: &'static str)
        ensures
            r@ == self.family_spec(),
    {
        self.family
    }
}

/// Pipeline state: the fill colour and font to apply before a batch of draw
/// calls. A part that is `None` leaves the renderer's current setting alone.
#[derive(Clone, Copy, Debug)]
pub struct Pso {
    pub fill_color: Option<CssColor>,
    pub font: Option<CssFont>,
}

} // verus!
