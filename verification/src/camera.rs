//! The vocabulary of instructions the translator issues to the camera
//! collaborator, together with the small data types those instructions carry.

use vstd::prelude::*;

verus! {

/// A cursor location in window pixel coordinates: signed, whole pixels.
#[derive(Clone, Copy, Debug, PartialEq, Eq, Structural)]
pub struct PixelPosition {
    pub x: i32,
    pub y: i32,
}

impl PixelPosition {
    pub fn new(x: i32, y: i32) -> (p: PixelPosition)
        ensures
            p.x == x,
            p.y == y,
    {
        PixelPosition { x, y }
    }
}

/// The mouse button a drag is attributed to. `NoButton` means no drag is in
/// progress: cursor motion is then recorded but issues no rotation.
#[derive(Clone, Copy, Debug, PartialEq, Eq, Structural)]
pub enum CameraMouseButton {
    NoButton,
    Left,
    Middle,
    Right,
}

/// The single modifier key considered active for drag interpretation.
/// Last write wins: a combined or empty modifier mask collapses to
/// `NoModifier`.
#[derive(Clone, Copy, Debug, PartialEq, Eq, Structural)]
pub enum MouseModifierFlags {
    NoModifier,
    Alt,
    Ctrl,
    Shift,
}

/// One discrete camera movement step.
#[derive(Clone, Copy, Debug, PartialEq, Eq, Structural)]
pub enum CameraMovement {
    Forward,
    Backward,
    Left,
    Right,
}

/// A single fire-and-forget instruction for the camera collaborator. The
/// translator issues zero or one of these per event and keeps no memory of
/// past commands.
#[derive(Clone, Copy, Debug, PartialEq, Eq, Structural)]
pub enum CameraCommand {
    /// Take one discrete movement step.
    Move(CameraMovement),
    /// Update drag-based rotation from the cursor position, the held button
    /// and the active modifier.
    Rotate(PixelPosition, CameraMouseButton, MouseModifierFlags),
    /// Zoom by a number of vertical scroll ticks.
    Zoom(i32),
    /// Refresh the camera's notion of the pointer location without implying
    /// a drag.
    SetMousePosition(PixelPosition),
    /// Emit the camera's current state through its own debug channel.
    DumpDebugState,
}

} // verus!
