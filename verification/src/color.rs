use vstd::prelude::*;

verus! {

/// One pixel value: red, green, blue and alpha, each an 8-bit channel.
#[derive(Clone, Copy, PartialEq, Eq, Structural, Debug)]
pub struct Rgba {
    pub r: u8,
    pub g: u8,
    pub b: u8,
    pub a: u8,
}

impl Rgba {
    /// A fully opaque color from its three color channels.
    pub fn opaque(r: u8, g: u8, b: u8) -> (c: Rgba)
        ensures
            c == (Rgba { r, g, b, a: 255 }),
    {
        Rgba { r, g, b, a: 255 }
    }

    /// Equality on the three color channels alone; keying ignores alpha.
    pub open spec fn spec_same_rgb(self, other: Rgba) -> bool {
        self.r == other.r && self.g == other.g && self.b == other.b
    }

    /// Whether `self` and `other` agree on red, green and blue.
    pub fn same_rgb(&self, other: &Rgba) -> (eq: bool)
        ensures
            eq == self.spec_same_rgb(*other),
    {
        self.r == other.r && self.g == other.g && self.b == other.b
    }
}

} // verus!
