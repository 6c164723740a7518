//! The input translator: from what the platform reports to what the
//! simulation is told.

use vstd::prelude::*;
use winit::event::{ElementState, MouseButton, VirtualKeyCode};
use crate::input::Input;

verus! {

/// What the platform reports of a window, as far as this library reads it.
#[derive(Clone, Copy, Debug, PartialEq, Eq)]
pub enum WindowEvent {
    /// The user asked for the window to be closed.
    CloseRequested,
    /// The window has a new size.
    Resized,
    /// A key went down or up.
    KeyboardInput { scancode: u32, virtual_keycode: Option<VirtualKeyCode>, state: ElementState },
    /// A mouse button went down or up.
    MouseInput { button: MouseButton, state: ElementState },
    /// The keyboard produced a character.
    ReceivedCharacter(char),
    /// Anything else.
    Other,
}

/// What the platform reports of an input device, as far as this library
/// reads it.
#[derive(Clone, Copy, Debug, PartialEq, Eq)]
pub enum DeviceEvent {
    /// The pointer moved by `delta`, in whole units.
    MouseMotion { delta: (i32, i32) },
    /// Anything else.
    Other,
}

/// The input that a window event stands for, if any.
pub open spec fn window_input(we: WindowEvent) -> Option<Input> {
    match we {
        WindowEvent::KeyboardInput { scancode, virtual_keycode, state } => Some(
            Input::Key { code: scancode, virtual_keycode, state },
        ),
        WindowEvent::MouseInput { button, state } => Some(Input::MouseButton { button, state }),
        WindowEvent::ReceivedCharacter(c) => Some(Input::Char(c)),
        _ => None,
    }
}

/// The input that a device event stands for, if any.
pub open spec fn device_input(de: DeviceEvent) -> Option<Input> {
    match de {
        DeviceEvent::MouseMotion { delta } => Some(Input::MouseDelta(delta.0, delta.1)),
        _ => None,
    }
}

/// Translates a window event: keys, mouse buttons and characters are
/// inputs, and nothing else is.
pub fn from_window(we: WindowEvent) -> (r: Option<Input>)
    ensures
        r == window_input(we),
{
    match we {
        WindowEvent::KeyboardInput { scancode, virtual_keycode, state } => Some(
            Input::Key { code: scancode, virtual_keycode, state },
        ),
        WindowEvent::MouseInput { button, state } => Some(Input::MouseButton { button, state }),
        WindowEvent::ReceivedCharacter(c) => Some(Input::Char(c)),
        _ => None,
    }
}

/// Translates a device event: pointer motion is an input, and nothing else
/// is.
pub fn from_device(de: DeviceEvent) -> (r: Option<Input>)
    ensures
        r == device_input(de),
{
    match de {
        DeviceEvent::MouseMotion { delta } => Some(Input::MouseDelta(delta.0, delta.1)),
        _ => None,
    }
}

} // verus!
