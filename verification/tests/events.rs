use tickframe::events::{from_device, from_window, DeviceEvent, WindowEvent};
use tickframe::input::Input;
use winit::event::{ElementState, MouseButton, VirtualKeyCode};

#[test]
fn key_becomes_key_input() {
    let we = WindowEvent::KeyboardInput {
        scancode: 30,
        virtual_keycode: Some(VirtualKeyCode::A),
        state: ElementState::Pressed,
    };
    assert_eq!(
        from_window(we),
        Some(Input::Key {
            code: 30,
            virtual_keycode: Some(VirtualKeyCode::A),
            state: ElementState::Pressed,
        })
    );
}

#[test]
fn key_without_a_name_keeps_its_code() {
    let we = WindowEvent::KeyboardInput {
        scancode: 999,
        virtual_keycode: None,
        state: ElementState::Released,
    };
    assert_eq!(
        from_window(we),
        Some(Input::Key { code: 999, virtual_keycode: None, state: ElementState::Released })
    );
}

#[test]
fn mouse_button_becomes_button_input() {
    let we = WindowEvent::MouseInput {
        button: MouseButton::Other(7),
        state: ElementState::Released,
    };
    assert_eq!(
        from_window(we),
        Some(Input::MouseButton { button: MouseButton::Other(7), state: ElementState::Released })
    );
}

#[test]
fn character_becomes_char_input() {
    assert_eq!(from_window(WindowEvent::ReceivedCharacter('é')), Some(Input::Char('é')));
}

#[test]
fn other_window_events_are_no_input() {
    assert_eq!(from_window(WindowEvent::CloseRequested), None);
    assert_eq!(from_window(WindowEvent::Resized), None);
    assert_eq!(from_window(WindowEvent::Other), None);
}

#[test]
fn pointer_motion_becomes_delta() {
    assert_eq!(
        from_device(DeviceEvent::MouseMotion { delta: (-12, 7) }),
        Some(Input::MouseDelta(-12, 7))
    );
    assert_eq!(
        from_device(DeviceEvent::MouseMotion { delta: (i32::MIN, i32::MAX) }),
        Some(Input::MouseDelta(i32::MIN, i32::MAX))
    );
}

#[test]
fn other_device_events_are_no_input() {
    assert_eq!(from_device(DeviceEvent::Other), None);
}
