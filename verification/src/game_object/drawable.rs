use crate::serialization::{AssetColor, AssetId};
use std::cmp::Ordering;
use vstd::prelude::*;

verus! {

/// The layer an entity is drawn on. Every background layer lies below
/// every foreground layer; within one kind the smaller number lies below.
#[derive(Debug, Clone, Copy, PartialEq, Eq, Structural, Ord)]
pub enum DrawLayer {
    Background(i32),
    Foreground(i32),
}

impl DrawLayer {
    /// Zero for a background layer, one for a foreground layer.
    pub open spec fn spec_kind(self) -> int {
        match self {
            DrawLayer::Background(_) => 0,
            DrawLayer::Foreground(_) => 1,
        }
    }

    /// The layer's number within its kind.
    pub open spec fn spec_level(self) -> int {
        match self {
            DrawLayer::Background(i) => i as int,
            DrawLayer::Foreground(i) => i as int,
        }
    }

    /// Whether `self` is drawn before `other`, or on the same layer.
    pub open spec fn spec_below_or_same(self, other: DrawLayer) -> bool {
        self.spec_kind() < other.spec_kind() || (self.spec_kind() == other.spec_kind()
            && self.spec_level() <= other.spec_level())
    }

    /// How `self` stands to `other` in drawing order.
    pub open spec fn draw_order(self, other: DrawLayer) -> Ordering {
        if self == other {
            Ordering::Equal
        } else if self.spec_below_or_same(other) {
            Ordering::Less
        } else {
            Ordering::Greater
        }
    }

    pub fn below_or_same(self, other: DrawLayer) -> (r: bool)
        ensures
            r == self.spec_below_or_same(other),
    {
        match (self, other) {
            (DrawLayer::Background(_), DrawLayer::Foreground(_)) => true,
            (DrawLayer::Foreground(_), DrawLayer::Background(_)) => false,
            (DrawLayer::Background(i), DrawLayer::Background(j)) => i <= j,
            (DrawLayer::Foreground(i), DrawLayer::Foreground(j)) => i <= j,
        }
    }
}

impl vstd::std_specs::cmp::PartialOrdSpecImpl for DrawLayer {
    open spec fn obeys_partial_cmp_spec() -> bool {
        true
    }

    open spec fn partial_cmp_spec(&self, other: &DrawLayer) -> Option<Ordering> {
        Some(self.draw_order(*other))
    }
}

impl PartialOrd for DrawLayer {
    fn partial_cmp(&self, other: &DrawLayer) -> (r: Option<Ordering>) {
        match (self, other) {
            (DrawLayer::Background(..), DrawLayer::Foreground(..)) => Some(Ordering::Less),
            (DrawLayer::Foreground(..), DrawLayer::Background(..)) => Some(Ordering::Greater),
            (DrawLayer::Background(i), DrawLayer::Background(j)) => i.partial_cmp(j),
            (DrawLayer::Foreground(i), DrawLayer::Foreground(j)) => i.partial_cmp(j),
        }
    }
}

/// The drawing order is total: of two layers one is below the other, or
/// they are the same, and the order has no cycles.
pub proof fn lemma_draw_order_total(a: DrawLayer, b: DrawLayer, c: DrawLayer)
    ensures
        a.spec_below_or_same(b) || b.spec_below_or_same(a),
        a.spec_below_or_same(b) && b.spec_below_or_same(a) ==> a == b,
        a.spec_below_or_same(b) && b.spec_below_or_same(c) ==> a.spec_below_or_same(c),
{
}

/// How an entity is drawn.
#[derive(Debug, Clone, Copy, PartialEq, Eq, Structural)]
pub struct Drawable {
    pub z: DrawLayer,
    pub color: Option<AssetColor>,
    /// The texture to draw, by its number.
    pub texture_id: Option<AssetId>,
    /// Whether the texture is tinted by the color.
    pub tint_texture: bool,
}

impl Drawable {
    /// What is drawn where nothing is said: the lowest background layer,
    /// without color or texture.
    pub open spec fn default_spec() -> Drawable {
        Drawable {
            z: DrawLayer::Background(0),
            color: None,
            texture_id: None,
            tint_texture: false,
        }
    }
}

impl Default for Drawable {
    fn default() -> (d: Self)
        ensures
            d == Drawable::default_spec(),
    {
        Self { z: DrawLayer::Background(0), color: None, texture_id: None, tint_texture: false }
    }
}

} // verus!
