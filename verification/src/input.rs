//! Normalised user input and the control state derived from it.

use vstd::prelude::*;
use winit::event::{ElementState, MouseButton, VirtualKeyCode};

verus! {

/// `winit::event::ElementState`, carried through without being inspected.
#[verifier::external_type_specification]
#[verifier::external_body]
pub struct ExElementState(ElementState);

/// `winit::event::MouseButton`, carried through without being inspected.
#[verifier::external_type_specification]
#[verifier::external_body]
pub struct ExMouseButton(MouseButton);

/// `winit::event::VirtualKeyCode`, carried through without being inspected.
#[verifier::external_type_specification]
#[verifier::external_body]
pub struct ExVirtualKeyCode(VirtualKeyCode);

/// One normalised input, as the simulation sees it.
#[derive(Clone, Copy, Debug, PartialEq, Eq)]
pub enum Input {
    Char(char),
    Key { code: u32, virtual_keycode: Option<VirtualKeyCode>, state: ElementState },
    MouseButton { button: MouseButton, state: ElementState },
    MouseDelta(i32, i32),
}

/// The state of the player's controls.
pub struct Controls {
    pub forward: bool,
    pub back: bool,
    pub left: bool,
    pub right: bool,
    pub up: bool,
    pub down: bool,
    pub mb_left: bool,
    pub mb_right: bool,
    pub mouse_position: (i32, i32),
    pub mouse_delta: (i32, i32),
}

impl Controls {
    /// Controls at rest: nothing pressed, the pointer at the origin.
    pub fn new() -> (c: Self)
        ensures
            !c.forward && !c.back && !c.left && !c.right && !c.up && !c.down,
            !c.mb_left && !c.mb_right,
            c.mouse_position == (0i32, 0i32),
            c.mouse_delta == (0i32, 0i32),
    {
        Self {
            forward: false,
            back: false,
            left: false,
            right: false,
            up: false,
            down: false,
            mb_left: false,
            mb_right: false,
            mouse_position: (0, 0),
            mouse_delta: (0, 0),
        }
    }
}

} // verus!
