use viewer_input::camera::CameraCommand;
use viewer_input::camera::CameraMouseButton;
use viewer_input::camera::CameraMovement;
use viewer_input::camera::MouseModifierFlags;
use viewer_input::camera::PixelPosition;
use viewer_input::window::process_event;
use viewer_input::window::ElementState;
use viewer_input::window::KeyboardInput;
use viewer_input::window::ModifiersState;
use viewer_input::window::MouseButton;
use viewer_input::window::MouseHandler;
use viewer_input::window::MouseScrollDelta;
use viewer_input::window::VirtualKeyCode;
use viewer_input::window::WindowEvent;

fn key(state: ElementState, code: VirtualKeyCode) -> WindowEvent {
    WindowEvent::KeyboardInput(KeyboardInput {
        state,
        virtual_keycode: Some(code),
    })
}

fn mask(shift: bool, ctrl: bool, alt: bool, logo: bool) -> ModifiersState {
    ModifiersState {
        shift,
        ctrl,
        alt,
        logo,
    }
}

struct Session {
    should_exit: bool,
    has_window_resized: bool,
    handler: MouseHandler,
}

fn fresh() -> Session {
    Session {
        should_exit: false,
        has_window_resized: false,
        handler: MouseHandler::new(),
    }
}

impl Session {
    fn deliver(&mut self, event: WindowEvent) -> Option<CameraCommand> {
        process_event(
            event,
            &mut self.should_exit,
            &mut self.has_window_resized,
            &mut self.handler,
        )
    }
}

#[test]
fn movement_keys_pressed_issue_move() {
    let cases = [
        (VirtualKeyCode::W, CameraMovement::Forward),
        (VirtualKeyCode::S, CameraMovement::Backward),
        (VirtualKeyCode::A, CameraMovement::Left),
        (VirtualKeyCode::D, CameraMovement::Right),
    ];
    for (code, direction) in cases {
        let mut session = fresh();
        let command = session.deliver(key(ElementState::Pressed, code));
        assert_eq!(command, Some(CameraCommand::Move(direction)));
        assert!(!session.should_exit);
        assert!(!session.has_window_resized);
    }
}

#[test]
fn movement_key_release_is_inert() {
    let mut session = fresh();
    for code in [
        VirtualKeyCode::W,
        VirtualKeyCode::S,
        VirtualKeyCode::A,
        VirtualKeyCode::D,
    ] {
        assert_eq!(session.deliver(key(ElementState::Released, code)), None);
    }
    assert!(!session.should_exit);
}

#[test]
fn unrecognized_or_unresolved_key_is_inert() {
    let mut session = fresh();
    assert_eq!(
        session.deliver(key(ElementState::Pressed, VirtualKeyCode::Other)),
        None
    );
    assert_eq!(
        session.deliver(WindowEvent::KeyboardInput(KeyboardInput {
            state: ElementState::Pressed,
            virtual_keycode: None,
        })),
        None
    );
    assert!(!session.should_exit);
}

#[test]
fn debug_key_dumps_state() {
    let mut session = fresh();
    assert_eq!(
        session.deliver(key(ElementState::Pressed, VirtualKeyCode::C)),
        Some(CameraCommand::DumpDebugState)
    );
    assert_eq!(
        session.deliver(key(ElementState::Released, VirtualKeyCode::C)),
        None
    );
}

#[test]
fn escape_press_sets_exit() {
    let mut session = fresh();
    assert_eq!(
        session.deliver(key(ElementState::Pressed, VirtualKeyCode::Escape)),
        None
    );
    assert!(session.should_exit);
}

#[test]
fn escape_release_does_not_set_exit() {
    let mut session = fresh();
    session.deliver(key(ElementState::Released, VirtualKeyCode::Escape));
    assert!(!session.should_exit);
}

#[test]
fn close_requested_sets_exit() {
    let mut session = fresh();
    assert_eq!(session.deliver(WindowEvent::CloseRequested), None);
    assert!(session.should_exit);
}

#[test]
fn exit_flag_stays_set_under_later_events() {
    let mut session = fresh();
    session.deliver(key(ElementState::Pressed, VirtualKeyCode::Escape));
    assert!(session.should_exit);
    session.deliver(key(ElementState::Pressed, VirtualKeyCode::W));
    session.deliver(WindowEvent::CursorMoved(PixelPosition::new(1, 2)));
    session.deliver(WindowEvent::Resized(800, 600));
    session.deliver(WindowEvent::Unrecognized);
    assert!(session.should_exit);
}

#[test]
fn resize_sets_flag_and_issues_nothing() {
    let mut session = fresh();
    assert_eq!(session.deliver(WindowEvent::Resized(1024, 768)), None);
    assert!(session.has_window_resized);
    assert!(!session.should_exit);
    assert_eq!(session.handler.button, CameraMouseButton::NoButton);
}

#[test]
fn drag_sequence_reports_button_and_modifier() {
    let mut session = fresh();
    let press = session.deliver(WindowEvent::MouseInput(
        ElementState::Pressed,
        MouseButton::Left,
    ));
    assert_eq!(
        press,
        Some(CameraCommand::SetMousePosition(PixelPosition::new(0, 0)))
    );
    let modifiers = session.deliver(WindowEvent::ModifiersChanged(mask(true, false, false, false)));
    assert_eq!(modifiers, None);
    let moved = session.deliver(WindowEvent::CursorMoved(PixelPosition::new(10, 20)));
    assert_eq!(
        moved,
        Some(CameraCommand::Rotate(
            PixelPosition::new(10, 20),
            CameraMouseButton::Left,
            MouseModifierFlags::Shift,
        ))
    );
}

#[test]
fn motion_without_button_is_recorded_but_inert() {
    let mut session = fresh();
    let command = session.deliver(WindowEvent::CursorMoved(PixelPosition::new(-7, 33)));
    assert_eq!(command, None);
    assert_eq!(session.handler.position, PixelPosition::new(-7, 33));
    assert_eq!(session.handler.button, CameraMouseButton::NoButton);
}

#[test]
fn release_resets_button_whatever_was_held() {
    for held in [MouseButton::Left, MouseButton::Middle, MouseButton::Right] {
        for released in [
            MouseButton::Left,
            MouseButton::Middle,
            MouseButton::Right,
            MouseButton::Other(7),
        ] {
            let mut session = fresh();
            session.deliver(WindowEvent::MouseInput(ElementState::Pressed, held));
            assert_ne!(session.handler.button, CameraMouseButton::NoButton);
            session.deliver(WindowEvent::MouseInput(ElementState::Released, released));
            assert_eq!(session.handler.button, CameraMouseButton::NoButton);
        }
    }
}

#[test]
fn unrecognized_button_press_resets_and_still_refreshes_position() {
    let mut session = fresh();
    session.deliver(WindowEvent::MouseInput(
        ElementState::Pressed,
        MouseButton::Middle,
    ));
    let command = session.deliver(WindowEvent::MouseInput(
        ElementState::Pressed,
        MouseButton::Other(4),
    ));
    assert_eq!(session.handler.button, CameraMouseButton::NoButton);
    assert_eq!(
        command,
        Some(CameraCommand::SetMousePosition(PixelPosition::new(0, 0)))
    );
}

#[test]
fn each_recognized_button_is_held_after_a_press() {
    let cases = [
        (MouseButton::Left, CameraMouseButton::Left),
        (MouseButton::Middle, CameraMouseButton::Middle),
        (MouseButton::Right, CameraMouseButton::Right),
    ];
    for (pressed, held) in cases {
        let mut session = fresh();
        session.deliver(WindowEvent::MouseInput(ElementState::Pressed, pressed));
        assert_eq!(session.handler.button, held);
    }
}

#[test]
fn wheel_line_delta_zooms_by_vertical_component() {
    let mut session = fresh();
    let command = session.deliver(WindowEvent::MouseWheel(MouseScrollDelta::LineDelta(5, -2)));
    assert_eq!(command, Some(CameraCommand::Zoom(-2)));
}

#[test]
fn wheel_pixel_delta_is_inert() {
    let mut session = fresh();
    let command = session.deliver(WindowEvent::MouseWheel(MouseScrollDelta::PixelDelta(5, -2)));
    assert_eq!(command, None);
}

#[test]
fn empty_modifier_mask_twice_is_idempotent() {
    let mut session = fresh();
    let first = session.deliver(WindowEvent::ModifiersChanged(mask(
        false, false, false, false,
    )));
    assert_eq!(first, None);
    assert_eq!(session.handler.modifiers, MouseModifierFlags::NoModifier);
    let second = session.deliver(WindowEvent::ModifiersChanged(mask(
        false, false, false, false,
    )));
    assert_eq!(second, None);
    assert_eq!(session.handler.modifiers, MouseModifierFlags::NoModifier);
}

#[test]
fn single_modifier_masks_select_their_modifier() {
    let cases = [
        (mask(true, false, false, false), MouseModifierFlags::Shift),
        (mask(false, true, false, false), MouseModifierFlags::Ctrl),
        (mask(false, false, true, false), MouseModifierFlags::Alt),
    ];
    for (modifiers, expected) in cases {
        let mut session = fresh();
        session.deliver(WindowEvent::ModifiersChanged(modifiers));
        assert_eq!(session.handler.modifiers, expected);
    }
}

#[test]
fn combined_or_unrecognized_modifier_masks_collapse_to_none() {
    let collapsing = [
        mask(true, true, false, false),
        mask(true, false, true, false),
        mask(false, true, true, false),
        mask(true, true, true, true),
        mask(false, false, false, true),
        mask(false, false, true, true),
    ];
    for modifiers in collapsing {
        let mut session = fresh();
        session.deliver(WindowEvent::ModifiersChanged(mask(true, false, false, false)));
        session.deliver(WindowEvent::ModifiersChanged(modifiers));
        assert_eq!(session.handler.modifiers, MouseModifierFlags::NoModifier);
    }
}

#[test]
fn press_then_move_rotates() {
    let mut session = fresh();
    session.deliver(WindowEvent::MouseInput(
        ElementState::Pressed,
        MouseButton::Left,
    ));
    let moved = session.deliver(WindowEvent::CursorMoved(PixelPosition::new(10, 20)));
    assert_eq!(
        moved,
        Some(CameraCommand::Rotate(
            PixelPosition::new(10, 20),
            CameraMouseButton::Left,
            MouseModifierFlags::NoModifier,
        ))
    );
}

#[test]
fn move_then_press_does_not_rotate() {
    let mut session = fresh();
    let moved = session.deliver(WindowEvent::CursorMoved(PixelPosition::new(10, 20)));
    assert_eq!(moved, None);
    let pressed = session.deliver(WindowEvent::MouseInput(
        ElementState::Pressed,
        MouseButton::Left,
    ));
    assert_eq!(
        pressed,
        Some(CameraCommand::SetMousePosition(PixelPosition::new(10, 20)))
    );
}

#[test]
fn new_handler_starts_neutral() {
    let handler = MouseHandler::new();
    assert_eq!(handler.button, CameraMouseButton::NoButton);
    assert_eq!(handler.modifiers, MouseModifierFlags::NoModifier);
    assert_eq!(handler.position, PixelPosition::new(0, 0));
}

#[test]
fn unrecognized_event_changes_nothing() {
    let mut session = fresh();
    session.deliver(WindowEvent::CursorMoved(PixelPosition::new(5, 6)));
    let before = session.handler;
    assert_eq!(session.deliver(WindowEvent::Unrecognized), None);
    assert_eq!(session.handler, before);
    assert!(!session.should_exit);
    assert!(!session.has_window_resized);
}
