//! Pointer and keyboard events.
use vstd::prelude::*;
use crate::geometry::fixed::Fixed;
use crate::geometry::vector::Vector;
use crate::input::keys::Key;

verus! {

/// What a pointer did.
#[derive(Copy, Clone, Debug, Eq, Hash, PartialEq)]
pub enum PointerEventType {
    PrimaryClick,
    SecondaryClick,
    DoubleClick,
    Down,
    Up,
    Move,
    Enter,
    Leave,
}

/// A pointer action and the position at which it happened.
#[derive(Copy, Clone, Debug)]
pub struct PointerEvent(pub PointerEventType, pub Vector);

/// What happened to a key.
#[derive(Copy, Clone, Debug, Eq, Hash, PartialEq)]
pub enum KeyEventType {
    KeyDown,
    KeyPress,
    KeyUp,
}

/// A key action and the key it concerns.
#[derive(Copy, Clone, Debug)]
pub struct KeyEvent(pub KeyEventType, pub Key);

/// The sources of input events that a frame can be attached to.
#[derive(Copy, Clone, Debug, Eq, Hash, PartialEq)]
pub enum EventListenerType {
    /// Keyboard events.
    Keyboard,
    /// Mouse events, for hosts without unified pointer events.
    Mouse,
    /// Touch events, for hosts without unified pointer events.
    Touch,
    /// Unified pointer events.
    BrowserPointer,
    /// Clicks, which every host generates.
    Click,
}

impl PointerEvent {
    /// The event with its position converted from native pixels to game
    /// coordinates: divided by the number of pixels per unit.
    pub open spec fn spec_projected(self, pixel_ratio: Fixed) -> PointerEvent {
        PointerEvent(self.0, self.1.divided(pixel_ratio))
    }

    /// The kind of action.
    pub fn event_type(&self) -> (r: PointerEventType)
        ensures
            r == self.0,
    {
        self.0
    }

    /// Where the action happened.
    pub fn pos(&self) -> (r: Vector)
        ensures
            r == self.1,
    {
        self.1
    }

    /// See [`PointerEvent::spec_projected`].
    #[verifier::when_used_as_spec(spec_projected)]
    pub fn projected(self, pixel_ratio: Fixed) -> (r: PointerEvent)
        ensures
            r == self.spec_projected(pixel_ratio),
    {
        PointerEvent(self.0, self.1.divided(pixel_ratio))
    }
}

impl KeyEvent {
    /// The kind of action.
    pub fn event_type(&self) -> (r: KeyEventType)
        ensures
            r == self.0,
    {
        self.0
    }

    /// The key that the action concerns.
    pub fn key(&self) -> (r: Key)
        ensures
            r == self.1,
    {
        self.1
    }
}

} // verus!
