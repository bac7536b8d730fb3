pub mod level;

use crate::math::fixed::Fixed;
use crate::math::vector2::Vector2;
use vstd::prelude::*;

verus! {

/// The number by which an asset or an entity is known.
pub type AssetId = i32;

pub type AssetPosition = Vector2<Fixed>;

/// A width and a height.
#[derive(Debug, Clone, Copy, Default, PartialEq, Eq, Structural)]
pub struct AssetSize {
    pub w: Fixed,
    pub h: Fixed,
}

/// A color by its red, green, blue and alpha parts.
#[derive(Debug, Clone, Copy, Default, PartialEq, Eq, Structural)]
pub struct AssetColor {
    pub r: u8,
    pub g: u8,
    pub b: u8,
    pub a: u8,
}

impl AssetColor {
    pub fn magenta() -> (c: Self)
        ensures
            c == (AssetColor { r: 255, g: 0, b: 255, a: 255 }),
    {
        AssetColor { r: 255, g: 0, b: 255, a: 255 }
    }
}

} // verus!
