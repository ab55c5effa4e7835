//! The event-to-command translation itself: the windowing events the
//! translator understands, the running input state, and the per-event
//! reducer `process_event` with its helpers.
//!
//! Each call handles exactly one event: it updates the input state and the
//! exit/resize signal flags as the event demands and returns the zero or one
//! camera command the event gives rise to. The host loop owns the state and
//! the flags, delivers events in arrival order, and performs the returned
//! command on its camera.

use vstd::prelude::*;

use crate::camera::CameraCommand;
use crate::camera::CameraMouseButton;
use crate::camera::CameraMovement;
use crate::camera::MouseModifierFlags;
use crate::camera::PixelPosition;

verus! {

/// Whether a key or mouse button event reports a press or a release.
#[derive(Clone, Copy, Debug, PartialEq, Eq, Structural)]
pub enum ElementState {
    Pressed,
    Released,
}

/// The keys the translator recognizes; every other key arrives as `Other`
/// and is ignored.
#[derive(Clone, Copy, Debug, PartialEq, Eq, Structural)]
pub enum VirtualKeyCode {
    W,
    S,
    A,
    D,
    C,
    Escape,
    Other,
}

/// A keyboard event: the transition reported and the key it concerns, if the
/// windowing system resolved one.
#[derive(Clone, Copy, Debug, PartialEq, Eq, Structural)]
pub struct KeyboardInput {
    pub state: ElementState,
    pub virtual_keycode: Option<VirtualKeyCode>,
}

/// A mouse button as the windowing system reports it; buttons outside the
/// recognized three carry their raw index.
#[derive(Clone, Copy, Debug, PartialEq, Eq, Structural)]
pub enum MouseButton {
    Left,
    Right,
    Middle,
    Other(u16),
}

/// The modifier keys reported as held. Only one of `shift`, `ctrl`, `alt`
/// held alone selects a modifier; any other combination collapses to
/// `NoModifier`.
#[derive(Clone, Copy, Debug, PartialEq, Eq, Structural)]
pub struct ModifiersState {
    pub shift: bool,
    pub ctrl: bool,
    pub alt: bool,
    pub logo: bool,
}

/// A scroll report. Only vertical line deltas are actionable; pixel-precision
/// deltas are ignored by design. Tick counts arrive already truncated toward
/// zero to whole units.
#[derive(Clone, Copy, Debug, PartialEq, Eq, Structural)]
pub enum MouseScrollDelta {
    LineDelta(i32, i32),
    PixelDelta(i32, i32),
}

/// One notification from the windowing system, reduced to the fields the
/// translator reads. Cursor coordinates arrive truncated to whole pixels;
/// a resize carries the new size, which the translator does not inspect.
#[derive(Clone, Copy, Debug, PartialEq, Eq, Structural)]
pub enum WindowEvent {
    CloseRequested,
    Resized(u32, u32),
    KeyboardInput(KeyboardInput),
    MouseInput(ElementState, MouseButton),
    ModifiersChanged(ModifiersState),
    CursorMoved(PixelPosition),
    MouseWheel(MouseScrollDelta),
    Unrecognized,
}

/// The session's running memory: the held button, the active modifier and
/// the last observed cursor position. Created once at session start and
/// mutated in place for the life of the session.
#[derive(Clone, Copy, Debug, PartialEq, Eq, Structural)]
pub struct MouseHandler {
    pub button: CameraMouseButton,
    pub modifiers: MouseModifierFlags,
    pub position: PixelPosition,
}

impl MouseHandler {
    /// A fresh state: no button held, no modifier active, cursor at the
    /// origin.
    pub fn new() -> (handler: MouseHandler)
        ensures
            handler.button == CameraMouseButton::NoButton,
            handler.modifiers == MouseModifierFlags::NoModifier,
            handler.position == (PixelPosition { x: 0, y: 0 }),
    {
        MouseHandler {
            button: CameraMouseButton::NoButton,
            modifiers: MouseModifierFlags::NoModifier,
            position: PixelPosition::new(0, 0),
        }
    }
}

/// True exactly when the key event asks the session to end: a press of the
/// escape key.
pub open spec fn key_requests_exit(input: KeyboardInput) -> bool {
    input.state == ElementState::Pressed && input.virtual_keycode == Some(
        VirtualKeyCode::Escape,
    )
}

/// The command a keyboard event issues: movement keys map one-to-one to
/// `Move`, the debug key to `DumpDebugState`. Releases, unresolved keys and
/// unrecognized keys issue nothing; the escape key works through the exit
/// signal instead of a command.
pub open spec fn key_command(input: KeyboardInput) -> Option<CameraCommand> {
    if input.state == ElementState::Pressed {
        match input.virtual_keycode {
            Some(VirtualKeyCode::W) => Some(CameraCommand::Move(CameraMovement::Forward)),
            Some(VirtualKeyCode::S) => Some(CameraCommand::Move(CameraMovement::Backward)),
            Some(VirtualKeyCode::A) => Some(CameraCommand::Move(CameraMovement::Left)),
            Some(VirtualKeyCode::D) => Some(CameraCommand::Move(CameraMovement::Right)),
            Some(VirtualKeyCode::C) => Some(CameraCommand::DumpDebugState),
            _ => None,
        }
    } else {
        None
    }
}

/// The held button after a mouse button event: a press of a recognized
/// button holds it; a release, or any event for an unrecognized button,
/// resets to `NoButton`.
pub open spec fn button_after(state: ElementState, button: MouseButton) -> CameraMouseButton {
    if state == ElementState::Pressed {
        match button {
            MouseButton::Left => CameraMouseButton::Left,
            MouseButton::Middle => CameraMouseButton::Middle,
            MouseButton::Right => CameraMouseButton::Right,
            MouseButton::Other(_) => CameraMouseButton::NoButton,
        }
    } else {
        CameraMouseButton::NoButton
    }
}

/// The active modifier after a modifier-changed event: exactly one of shift,
/// ctrl or alt held alone selects it; any other mask, empty or combined,
/// collapses to `NoModifier`.
pub open spec fn modifier_after(modifiers: ModifiersState) -> MouseModifierFlags {
    if modifiers.alt && !modifiers.ctrl && !modifiers.shift && !modifiers.logo {
        MouseModifierFlags::Alt
    } else if modifiers.ctrl && !modifiers.alt && !modifiers.shift && !modifiers.logo {
        MouseModifierFlags::Ctrl
    } else if modifiers.shift && !modifiers.alt && !modifiers.ctrl && !modifiers.logo {
        MouseModifierFlags::Shift
    } else {
        MouseModifierFlags::NoModifier
    }
}

/// The command a scroll event issues: the vertical component of a line
/// delta becomes a zoom; every other delta issues nothing.
pub open spec fn wheel_command(delta: MouseScrollDelta) -> Option<CameraCommand> {
    match delta {
        MouseScrollDelta::LineDelta(_x, y) => Some(CameraCommand::Zoom(y)),
        MouseScrollDelta::PixelDelta(_x, _y) => None,
    }
}

/// Everything one event produces: the input state, the two signal flags and
/// the zero or one command issued.
pub struct EventOutcome {
    pub handler: MouseHandler,
    pub should_exit: bool,
    pub has_window_resized: bool,
    pub command: Option<CameraCommand>,
}

/// The whole reducer as one mathematical step: what the input state, the
/// signal flags and the issued command are after one event. `process_event`
/// is proved to realize exactly this function.
pub open spec fn step(
    handler: MouseHandler,
    should_exit: bool,
    has_window_resized: bool,
    event: WindowEvent,
) -> EventOutcome {
    match event {
        WindowEvent::CloseRequested => EventOutcome {
            handler,
            should_exit: true,
            has_window_resized,
            command: None,
        },
        WindowEvent::Resized(_w, _h) => EventOutcome {
            handler,
            should_exit,
            has_window_resized: true,
            command: None,
        },
        WindowEvent::KeyboardInput(input) => EventOutcome {
            handler,
            should_exit: should_exit || key_requests_exit(input),
            has_window_resized,
            command: key_command(input),
        },
        WindowEvent::MouseInput(state, button) => EventOutcome {
            handler: MouseHandler {
                button: button_after(state, button),
                modifiers: handler.modifiers,
                position: handler.position,
            },
            should_exit,
            has_window_resized,
            command: Some(CameraCommand::SetMousePosition(handler.position)),
        },
        WindowEvent::ModifiersChanged(modifiers) => EventOutcome {
            handler: MouseHandler {
                button: handler.button,
                modifiers: modifier_after(modifiers),
                position: handler.position,
            },
            should_exit,
            has_window_resized,
            command: None,
        },
        WindowEvent::CursorMoved(position) => EventOutcome {
            handler: MouseHandler {
                button: handler.button,
                modifiers: handler.modifiers,
                position,
            },
            should_exit,
            has_window_resized,
            command: if handler.button == CameraMouseButton::NoButton {
                None
            } else {
                Some(CameraCommand::Rotate(position, handler.button, handler.modifiers))
            },
        },
        WindowEvent::MouseWheel(delta) => EventOutcome {
            handler,
            should_exit,
            has_window_resized,
            command: wheel_command(delta),
        },
        WindowEvent::Unrecognized => EventOutcome {
            handler,
            should_exit,
            has_window_resized,
            command: None,
        },
    }
}

/// Latch the exit signal: the host loop stops delivering events once it
/// reads the flag.
pub fn exit_window(should_exit: &mut bool)
    ensures
        *final(should_exit),
{
    *should_exit = true;
}

/// Latch the resize signal: the collaborator that owns surface recreation
/// reads it; the new geometry is not inspected here.
pub fn resize_window(has_window_resized: &mut bool)
    ensures
        *final(has_window_resized),
{
    *has_window_resized = true;
}

/// Translate a keyboard event. Only presses are actionable: movement keys
/// issue the matching `Move`, the debug key issues `DumpDebugState`, and
/// escape latches the exit signal; everything else is a no-op.
pub fn process_keyboard(input: KeyboardInput, should_exit: &mut bool) -> (command: Option<
    CameraCommand,
>)
    ensures
        command == key_command(input),
        *final(should_exit) == (*old(should_exit) || key_requests_exit(input)),
{
    if input.state == ElementState::Pressed {
        match input.virtual_keycode {
            Some(VirtualKeyCode::W) => Some(CameraCommand::Move(CameraMovement::Forward)),
            Some(VirtualKeyCode::S) => Some(CameraCommand::Move(CameraMovement::Backward)),
            Some(VirtualKeyCode::A) => Some(CameraCommand::Move(CameraMovement::Left)),
            Some(VirtualKeyCode::D) => Some(CameraCommand::Move(CameraMovement::Right)),
            Some(VirtualKeyCode::C) => Some(CameraCommand::DumpDebugState),
            Some(VirtualKeyCode::Escape) => {
                exit_window(should_exit);
                None
            },
            _ => None,
        }
    } else {
        None
    }
}

/// Translate a mouse button event: resolve the held button first, then
/// unconditionally refresh the camera's pointer position, so that a later
/// drag starts from a position the camera already knows.
pub fn process_mouse_input(
    state: ElementState,
    button: MouseButton,
    mouse_button: &mut CameraMouseButton,
    mouse_position: &PixelPosition,
) -> (command: Option<CameraCommand>)
    ensures
        *final(mouse_button) == button_after(state, button),
        command == Some(CameraCommand::SetMousePosition(*mouse_position)),
{
    *mouse_button = CameraMouseButton::NoButton;
    if state == ElementState::Pressed {
        match button {
            MouseButton::Left => {
                *mouse_button = CameraMouseButton::Left;
            },
            MouseButton::Middle => {
                *mouse_button = CameraMouseButton::Middle;
            },
            MouseButton::Right => {
                *mouse_button = CameraMouseButton::Right;
            },
            MouseButton::Other(_) => {},
        }
    }
    Some(CameraCommand::SetMousePosition(*mouse_position))
}

/// Translate a modifier-changed event: last write wins, and any mask other
/// than a single recognized modifier collapses to `NoModifier`.
pub fn process_mouse_modifiers(
    modifiers: ModifiersState,
    mouse_modifiers: &mut MouseModifierFlags,
)
    ensures
        *final(mouse_modifiers) == modifier_after(modifiers),
{
    if modifiers.alt && !modifiers.ctrl && !modifiers.shift && !modifiers.logo {
        *mouse_modifiers = MouseModifierFlags::Alt;
    } else if modifiers.ctrl && !modifiers.alt && !modifiers.shift && !modifiers.logo {
        *mouse_modifiers = MouseModifierFlags::Ctrl;
    } else if modifiers.shift && !modifiers.alt && !modifiers.ctrl && !modifiers.logo {
        *mouse_modifiers = MouseModifierFlags::Shift;
    } else {
        *mouse_modifiers = MouseModifierFlags::NoModifier;
    }
}

/// Translate a cursor-moved event: always record the new position; issue a
/// `Rotate` only while a button is held — motion without a held button is
/// inert.
pub fn process_cursor_movement(position: PixelPosition, mouse_handler: &mut MouseHandler) -> (command:
    Option<CameraCommand>)
    ensures
        final(mouse_handler).position == position,
        final(mouse_handler).button == old(mouse_handler).button,
        final(mouse_handler).modifiers == old(mouse_handler).modifiers,
        command == (if old(mouse_handler).button == CameraMouseButton::NoButton {
            None
        } else {
            Some(
                CameraCommand::Rotate(
                    position,
                    old(mouse_handler).button,
                    old(mouse_handler).modifiers,
                ),
            )
        }),
{
    mouse_handler.position = position;
    match mouse_handler.button {
        CameraMouseButton::NoButton => None,
        _ => Some(
            CameraCommand::Rotate(
                mouse_handler.position,
                mouse_handler.button,
                mouse_handler.modifiers,
            ),
        ),
    }
}

/// Translate a scroll event: only the vertical component of a line delta is
/// actionable and becomes a zoom; pixel-precision deltas issue nothing.
pub fn process_mouse_wheel(delta: MouseScrollDelta) -> (command: Option<CameraCommand>)
    ensures
        command == wheel_command(delta),
{
    match delta {
        MouseScrollDelta::LineDelta(_x, y) => Some(CameraCommand::Zoom(y)),
        MouseScrollDelta::PixelDelta(_x, _y) => None,
    }
}

/// Handle one event: dispatch on its tag, update the input state and the
/// signal flags, and return the zero or one camera command it issues.
/// The outcome is exactly `step` applied to the values before the call.
pub fn process_event(
    event: WindowEvent,
    should_exit: &mut bool,
    has_window_resized: &mut bool,
    mouse_handler: &mut MouseHandler,
) -> (command: Option<CameraCommand>)
    ensures
        ({
            let outcome = step(
                *old(mouse_handler),
                *old(should_exit),
                *old(has_window_resized),
                event,
            );
            &&& *final(mouse_handler) == outcome.handler
            &&& *final(should_exit) == outcome.should_exit
            &&& *final(has_window_resized) == outcome.has_window_resized
            &&& command == outcome.command
        }),
{
    match event {
        WindowEvent::CloseRequested => {
            exit_window(should_exit);
            None
        },
        WindowEvent::Resized(_w, _h) => {
            resize_window(has_window_resized);
            None
        },
        WindowEvent::KeyboardInput(input) => process_keyboard(input, should_exit),
        WindowEvent::MouseInput(state, button) => {
            let position = mouse_handler.position;
            process_mouse_input(state, button, &mut mouse_handler.button, &position)
        },
        WindowEvent::ModifiersChanged(modifiers) => {
            process_mouse_modifiers(modifiers, &mut mouse_handler.modifiers);
            None
        },
        WindowEvent::CursorMoved(position) => process_cursor_movement(position, mouse_handler),
        WindowEvent::MouseWheel(delta) => process_mouse_wheel(delta),
        WindowEvent::Unrecognized => None,
    }
}

} // verus!
