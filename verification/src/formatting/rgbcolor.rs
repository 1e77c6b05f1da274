//! 24-bit colors.
use vstd::prelude::*;
use vstd::std_specs::convert::FromSpecImpl;

verus! {

/// A 24-bit color composed of red, green, and blue components
#[derive(Clone, Copy, Debug, PartialEq, Eq, Structural, Hash, PartialOrd, Ord)]
pub struct RgbColor(pub u8, pub u8, pub u8);

impl RgbColor {
    /// The red component
    pub fn red(self) -> (r: u8)
        ensures
            r == self.0,
    {
        self.0
    }

    /// The green component
    pub fn green(self) -> (r: u8)
        ensures
            r == self.1,
    {
        self.1
    }

    /// The blue component
    pub fn blue(self) -> (r: u8)
        ensures
            r == self.2,
    {
        self.2
    }
}

impl From<(u8, u8, u8)> for RgbColor {
    /// The color with the given red, green and blue components
    fn from(value: (u8, u8, u8)) -> (r: RgbColor)
        ensures
            r == RgbColor(value.0, value.1, value.2),
    {
        RgbColor(value.0, value.1, value.2)
    }
}

impl FromSpecImpl<(u8, u8, u8)> for RgbColor {
    open spec fn obeys_from_spec() -> bool {
        true
    }

    open spec fn from_spec(v: (u8, u8, u8)) -> RgbColor {
        RgbColor(v.0, v.1, v.2)
    }
}

impl From<RgbColor> for (u8, u8, u8) {
    /// The red, green and blue components of the color
    fn from(value: RgbColor) -> (r: (u8, u8, u8))
        ensures
            r == (value.0, value.1, value.2),
    {
        (value.0, value.1, value.2)
    }
}

impl FromSpecImpl<RgbColor> for (u8, u8, u8) {
    open spec fn obeys_from_spec() -> bool {
        true
    }

    open spec fn from_spec(v: RgbColor) -> (u8, u8, u8) {
        (v.0, v.1, v.2)
    }
}

} // verus!
