//! The translator's guarantees, stated once over the `step` model that
//! `process_event` is proved to realize: movement keys, the exit latch, the
//! resize latch, inert motion, button release, modifier idempotence, wheel
//! handling and the order sensitivity of press and move.

use vstd::prelude::*;

use crate::camera::CameraCommand;
use crate::camera::CameraMouseButton;
use crate::camera::CameraMovement;
use crate::camera::MouseModifierFlags;
use crate::camera::PixelPosition;
use crate::window::ElementState;
use crate::window::KeyboardInput;
use crate::window::ModifiersState;
use crate::window::MouseButton;
use crate::window::MouseHandler;
use crate::window::MouseScrollDelta;
use crate::window::VirtualKeyCode;
use crate::window::WindowEvent;
use crate::window::key_requests_exit;
use crate::window::modifier_after;
use crate::window::step;

verus! {

/// The pairing of movement keys with directions.
pub open spec fn key_directs(key: VirtualKeyCode, direction: CameraMovement) -> bool {
    ||| key == VirtualKeyCode::W && direction == CameraMovement::Forward
    ||| key == VirtualKeyCode::S && direction == CameraMovement::Backward
    ||| key == VirtualKeyCode::A && direction == CameraMovement::Left
    ||| key == VirtualKeyCode::D && direction == CameraMovement::Right
}

/// Pressing a recognized movement key issues exactly one `Move` with the
/// matching direction and touches neither the input state nor the signals;
/// releasing the same key issues no command at all.
pub proof fn lemma_movement_key(
    handler: MouseHandler,
    should_exit: bool,
    has_window_resized: bool,
    key: VirtualKeyCode,
    direction: CameraMovement,
)
    requires
        key_directs(key, direction),
    ensures
        ({
            let pressed = step(
                handler,
                should_exit,
                has_window_resized,
                WindowEvent::KeyboardInput(
                    KeyboardInput { state: ElementState::Pressed, virtual_keycode: Some(key) },
                ),
            );
            &&& pressed.command == Some(CameraCommand::Move(direction))
            &&& pressed.handler == handler
            &&& pressed.should_exit == should_exit
            &&& pressed.has_window_resized == has_window_resized
        }),
        ({
            let released = step(
                handler,
                should_exit,
                has_window_resized,
                WindowEvent::KeyboardInput(
                    KeyboardInput { state: ElementState::Released, virtual_keycode: Some(key) },
                ),
            );
            &&& released.command == None::<CameraCommand>
            &&& released.handler == handler
            &&& released.should_exit == should_exit
            &&& released.has_window_resized == has_window_resized
        }),
{
}

/// The exit signal is a one-way latch: a close request sets it, a press of
/// escape sets it, and once set no event of any kind clears it.
pub proof fn lemma_exit_latch(
    handler: MouseHandler,
    should_exit: bool,
    has_window_resized: bool,
    event: WindowEvent,
    input: KeyboardInput,
)
    ensures
        step(handler, should_exit, has_window_resized, WindowEvent::CloseRequested).should_exit,
        key_requests_exit(input) ==> step(
            handler,
            should_exit,
            has_window_resized,
            WindowEvent::KeyboardInput(input),
        ).should_exit,
        should_exit ==> step(handler, should_exit, has_window_resized, event).should_exit,
{
}

/// A resize latches the resize signal, issues no command and leaves the
/// input state and the exit signal alone.
pub proof fn lemma_resize(
    handler: MouseHandler,
    should_exit: bool,
    has_window_resized: bool,
    width: u32,
    height: u32,
)
    ensures
        ({
            let outcome = step(
                handler,
                should_exit,
                has_window_resized,
                WindowEvent::Resized(width, height),
            );
            &&& outcome.has_window_resized
            &&& outcome.command == None::<CameraCommand>
            &&& outcome.handler == handler
            &&& outcome.should_exit == should_exit
        }),
{
}

/// Cursor motion while no button is held records the new position and
/// issues no command: motion without a held button is inert.
pub proof fn lemma_inert_motion(
    handler: MouseHandler,
    should_exit: bool,
    has_window_resized: bool,
    position: PixelPosition,
)
    requires
        handler.button == CameraMouseButton::NoButton,
    ensures
        ({
            let outcome = step(
                handler,
                should_exit,
                has_window_resized,
                WindowEvent::CursorMoved(position),
            );
            &&& outcome.command == None::<CameraCommand>
            &&& outcome.handler.position == position
            &&& outcome.handler.button == handler.button
            &&& outcome.handler.modifiers == handler.modifiers
            &&& outcome.should_exit == should_exit
            &&& outcome.has_window_resized == has_window_resized
        }),
{
}

/// A button release resets the held button to `NoButton`, whatever was held
/// before and whichever button is released.
pub proof fn lemma_release_resets(
    handler: MouseHandler,
    should_exit: bool,
    has_window_resized: bool,
    button: MouseButton,
)
    ensures
        step(
            handler,
            should_exit,
            has_window_resized,
            WindowEvent::MouseInput(ElementState::Released, button),
        ).handler.button == CameraMouseButton::NoButton,
{
}

/// Delivering the same modifier-changed event twice is idempotent: each
/// delivery issues no command, the first sets the modifier the mask resolves
/// to, and the second changes nothing at all. With an empty mask both
/// deliveries leave `NoModifier`.
pub proof fn lemma_modifier_idempotent(
    handler: MouseHandler,
    should_exit: bool,
    has_window_resized: bool,
    modifiers: ModifiersState,
)
    ensures
        ({
            let first = step(
                handler,
                should_exit,
                has_window_resized,
                WindowEvent::ModifiersChanged(modifiers),
            );
            let second = step(
                first.handler,
                first.should_exit,
                first.has_window_resized,
                WindowEvent::ModifiersChanged(modifiers),
            );
            &&& first.command == None::<CameraCommand>
            &&& first.handler.modifiers == modifier_after(modifiers)
            &&& second.command == None::<CameraCommand>
            &&& second.handler == first.handler
            &&& second.should_exit == first.should_exit
            &&& second.has_window_resized == first.has_window_resized
        }),
{
}

/// A pixel-precision scroll delta issues nothing; a line delta zooms by its
/// vertical component alone; neither touches the input state or the signals.
pub proof fn lemma_wheel(
    handler: MouseHandler,
    should_exit: bool,
    has_window_resized: bool,
    x: i32,
    y: i32,
)
    ensures
        ({
            let pixel = step(
                handler,
                should_exit,
                has_window_resized,
                WindowEvent::MouseWheel(MouseScrollDelta::PixelDelta(x, y)),
            );
            &&& pixel.command == None::<CameraCommand>
            &&& pixel.handler == handler
            &&& pixel.should_exit == should_exit
            &&& pixel.has_window_resized == has_window_resized
        }),
        ({
            let line = step(
                handler,
                should_exit,
                has_window_resized,
                WindowEvent::MouseWheel(MouseScrollDelta::LineDelta(x, y)),
            );
            &&& line.command == Some(CameraCommand::Zoom(y))
            &&& line.handler == handler
            &&& line.should_exit == should_exit
            &&& line.has_window_resized == has_window_resized
        }),
{
}

/// Order matters: from a state with no held button, pressing the left
/// button and then moving the cursor issues one `Rotate` carrying the new
/// position, the left button and the active modifier; moving first and then
/// pressing issues no `Rotate` — the move is inert and the press issues only
/// the position-refresh `SetMousePosition` with the freshly recorded
/// position.
pub proof fn lemma_order_sensitivity(
    handler: MouseHandler,
    should_exit: bool,
    has_window_resized: bool,
    position: PixelPosition,
)
    requires
        handler.button == CameraMouseButton::NoButton,
    ensures
        ({
            let pressed = step(
                handler,
                should_exit,
                has_window_resized,
                WindowEvent::MouseInput(ElementState::Pressed, MouseButton::Left),
            );
            let moved = step(
                pressed.handler,
                pressed.should_exit,
                pressed.has_window_resized,
                WindowEvent::CursorMoved(position),
            );
            moved.command == Some(
                CameraCommand::Rotate(position, CameraMouseButton::Left, handler.modifiers),
            )
        }),
        ({
            let moved = step(
                handler,
                should_exit,
                has_window_resized,
                WindowEvent::CursorMoved(position),
            );
            let pressed = step(
                moved.handler,
                moved.should_exit,
                moved.has_window_resized,
                WindowEvent::MouseInput(ElementState::Pressed, MouseButton::Left),
            );
            &&& moved.command == None::<CameraCommand>
            &&& pressed.command == Some(CameraCommand::SetMousePosition(position))
        }),
{
}

} // verus!

