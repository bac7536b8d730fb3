use crate::game_object::GameObject;
use crate::math::bounds::{Point, Rect};
use crate::serialization::{AssetId, AssetSize};
use vstd::prelude::*;

verus! {

/// How the player's entity looks.
#[derive(Debug, Clone, Copy, PartialEq, Eq, Structural)]
pub struct Player {
    pub texture_id: AssetId,
    pub size: AssetSize,
}

/// A level: where the player starts, how far the world reaches, and the
/// entities that are in it.
#[derive(Debug)]
pub struct LevelData {
    pub name: String,
    pub start: Point,
    pub bounds: Rect,
    pub player: Player,
    pub objects: Vec<GameObject>,
}

} // verus!
