use crate::math::bounds::Point;
use crate::math::fixed::Fixed;
use crate::math::vector2::Vector2;
use vstd::prelude::*;

verus! {

/// The bit of the left mouse button.
pub const LEFT_BUTTON: u32 = 0x0001;

/// The bit of the right mouse button.
pub const RIGHT_BUTTON: u32 = 0x0002;

/// The bit of the middle mouse button.
pub const MIDDLE_BUTTON: u32 = 0x0004;

/// The mouse buttons that are held down, one bit for each.
#[derive(Debug, Clone, Copy, PartialEq, Eq, Hash, Default, Structural)]
pub struct MouseButtonState {
    pub bits: u32,
}

impl MouseButtonState {
    /// No button.
    pub fn none() -> (r: Self)
        ensures
            r.bits == 0,
    {
        MouseButtonState { bits: 0 }
    }

    pub fn left_button() -> (r: Self)
        ensures
            r.bits == LEFT_BUTTON,
    {
        MouseButtonState { bits: LEFT_BUTTON }
    }

    pub fn right_button() -> (r: Self)
        ensures
            r.bits == RIGHT_BUTTON,
    {
        MouseButtonState { bits: RIGHT_BUTTON }
    }

    pub fn middle_button() -> (r: Self)
        ensures
            r.bits == MIDDLE_BUTTON,
    {
        MouseButtonState { bits: MIDDLE_BUTTON }
    }

    /// Whether no button is held.
    pub fn is_none(self) -> (r: bool)
        ensures
            r == (self.bits == 0),
    {
        self.bits == 0
    }

    /// Whether every button of `other` is held.
    pub fn contains(self, other: MouseButtonState) -> (r: bool)
        ensures
            r == (self.bits & other.bits == other.bits),
    {
        self.bits & other.bits == other.bits
    }

    /// The buttons of either state.
    pub fn or(self, other: MouseButtonState) -> (r: Self)
        ensures
            r.bits == self.bits | other.bits,
    {
        MouseButtonState { bits: self.bits | other.bits }
    }

    /// The buttons of both states.
    pub fn and(self, other: MouseButtonState) -> (r: Self)
        ensures
            r.bits == self.bits & other.bits,
    {
        MouseButtonState { bits: self.bits & other.bits }
    }

    /// The buttons of exactly one of the two states.
    pub fn xor(self, other: MouseButtonState) -> (r: Self)
        ensures
            r.bits == self.bits ^ other.bits,
    {
        MouseButtonState { bits: self.bits ^ other.bits }
    }

    /// The buttons that are not held.
    pub fn not(self) -> (r: Self)
        ensures
            r.bits == !self.bits,
    {
        MouseButtonState { bits: !self.bits }
    }
}

/// Where the mouse is, and which of its buttons are held.
#[derive(Debug, Clone, Copy)]
pub struct Mouse {
    pub buttons: MouseButtonState,
    pub pos: Point,
}

impl Mouse {
    /// The mouse at the origin with no button held.
    pub open spec fn default_spec() -> Mouse {
        Mouse {
            buttons: MouseButtonState { bits: 0 },
            pos: Vector2 { x: Fixed { raw: 0 }, y: Fixed { raw: 0 } },
        }
    }
}

impl Default for Mouse {
    fn default() -> (r: Self)
        ensures
            r == Mouse::default_spec(),
    {
        Self { buttons: MouseButtonState::none(), pos: Vector2 { x: Fixed::zero(), y: Fixed::zero() } }
    }
}

} // verus!
