//! Input-translation core of an interactive 3D viewer: turns windowing
//! events into camera commands and view-state updates, tracking the held
//! mouse button, the active modifier and the last cursor position.

pub mod camera;
pub mod laws;
pub mod window;
