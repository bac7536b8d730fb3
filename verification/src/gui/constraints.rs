use crate::math::bounds::Rect;
use crate::math::fixed::Fixed;
use crate::serialization::AssetId;
use vstd::prelude::*;

verus! {

/// The part of an element that a constraint speaks of.
#[derive(Debug, Clone, Copy, PartialEq, Eq, Structural)]
pub enum Anchor {
    Top,
    Bottom,
    Leading,
    Trailing,
    Width,
    Height,
    CenterVertically,
    CenterHorizontally,
}

/// How an anchor stands to the anchor of another element.
#[derive(Debug, Clone, Copy, PartialEq, Eq, Structural)]
pub enum Relation {
    Equal,
    Greater,
    GreaterEqual,
    Less,
    LessEqual,
    /// The anchor stands alone.
    Unrelated,
}

/// One anchor of an element, tied to an anchor of another element, times a
/// factor and plus a constant.
#[derive(Debug, Clone, Copy)]
pub struct Constraint {
    pub own_anchor: Anchor,
    pub other_anchor: Option<Anchor>,
    pub other_id: Option<AssetId>,
    pub relation: Relation,
    pub factor: Fixed,
    pub constant: Fixed,
}

/// The four constraints that place an element.
#[derive(Debug, Clone, Copy)]
pub struct ConstraintSet {
    pub constraint: [Constraint; 4],
}

/// Where an element is: at a given rectangle, or where constraints put it.
#[derive(Debug, Clone, Copy)]
pub enum Frame {
    Rect(Rect),
    Constraint(ConstraintSet),
}

} // verus!
