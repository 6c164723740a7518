use std::cell::RefCell;

use tickframe::app::{App, Flow, PlatformEvent};
use tickframe::device::{Device, QueueFamily};
use tickframe::events::{DeviceEvent, WindowEvent};
use tickframe::input::Input;
use tickframe::swapchain::{Extent, PresentMode, SurfaceCapabilities, SurfaceFormat, Swapchain};
use tickframe::vulkan::{Action, Phase, Vulkan};
use tickframe::window::TICK_NANOS;
use winit::event::{ElementState, MouseButton, VirtualKeyCode};

fn app(now: u64) -> App {
    let device =
        Device::new(&vec![vec![QueueFamily { queue_flags: 1, supports_surface: true }]]).unwrap();
    let mut builder = Swapchain::builder()
        .capabilities(SurfaceCapabilities {
            min_image_count: 2,
            max_image_count: 0,
            current_extent: Extent { width: u32::MAX, height: u32::MAX },
            supported_transforms: 1,
            current_transform: 1,
        })
        .formats(vec![SurfaceFormat { format: 44, color_space: 0 }])
        .present_modes(vec![PresentMode::Fifo]);
    let vulkan = Vulkan::new(device, &mut builder, &Extent { width: 800, height: 600 }).unwrap();
    App::new(vulkan, now)
}

#[test]
fn new_app_has_an_empty_buffer() {
    let a = app(5);
    assert_eq!(a.window.last_time(), 5);
    assert_eq!(a.window.accumulated(), 0);
    assert!(a.window.inputs().is_empty());
    assert_eq!(a.vulkan.phase(), Phase::Idle);
    assert_eq!(a.vulkan.swapchain().extent(), Extent { width: 800, height: 600 });
}

#[test]
fn close_request_ends_the_loop() {
    let mut a = app(0);
    assert_eq!(a.handle(PlatformEvent::Window(WindowEvent::CloseRequested)), Flow::Exit);
    assert!(a.window.inputs().is_empty());
    assert!(!a.vulkan.swapchain().is_stale());
}

#[test]
fn resize_marks_the_surface_stale() {
    let mut a = app(0);
    assert_eq!(a.handle(PlatformEvent::Window(WindowEvent::Resized)), Flow::Poll);
    assert!(a.vulkan.swapchain().is_stale());
    assert!(a.window.inputs().is_empty());
    assert_eq!(a.frame(1, false, |_, _| ()), (0, Action::Rebuild));
}

#[test]
fn inputs_are_buffered_in_order_of_arrival() {
    let mut a = app(0);
    let key = WindowEvent::KeyboardInput {
        scancode: 57,
        virtual_keycode: Some(VirtualKeyCode::Space),
        state: ElementState::Pressed,
    };
    let click = WindowEvent::MouseInput { button: MouseButton::Right, state: ElementState::Pressed };
    assert_eq!(a.handle(PlatformEvent::Window(key)), Flow::Poll);
    assert_eq!(a.handle(PlatformEvent::Device(DeviceEvent::MouseMotion { delta: (2, -5) })), Flow::Poll);
    assert_eq!(a.handle(PlatformEvent::Window(click)), Flow::Poll);
    assert_eq!(a.handle(PlatformEvent::Window(WindowEvent::ReceivedCharacter(' '))), Flow::Poll);
    assert_eq!(
        a.window.inputs(),
        &[
            Input::Key {
                code: 57,
                virtual_keycode: Some(VirtualKeyCode::Space),
                state: ElementState::Pressed,
            },
            Input::MouseDelta(2, -5),
            Input::MouseButton { button: MouseButton::Right, state: ElementState::Pressed },
            Input::Char(' '),
        ][..]
    );
    assert!(!a.vulkan.swapchain().is_stale());
}

#[test]
fn events_that_are_no_input_are_dropped() {
    let mut a = app(0);
    assert_eq!(a.handle(PlatformEvent::Window(WindowEvent::Other)), Flow::Poll);
    assert_eq!(a.handle(PlatformEvent::Device(DeviceEvent::Other)), Flow::Poll);
    assert_eq!(a.handle(PlatformEvent::Other), Flow::Poll);
    assert!(a.window.inputs().is_empty());
    assert!(!a.vulkan.swapchain().is_stale());
}

#[test]
fn end_of_events_asks_for_a_frame() {
    let mut a = app(0);
    assert_eq!(a.handle(PlatformEvent::MainEventsCleared), Flow::Frame);
    assert_eq!(a.vulkan.phase(), Phase::Idle);
}

#[test]
fn frame_runs_ticks_then_starts_rendering() {
    let seen: RefCell<Vec<(u64, Vec<Input>)>> = RefCell::new(Vec::new());
    let mut a = app(0);
    a.handle(PlatformEvent::Window(WindowEvent::ReceivedCharacter('w')));
    let r = a.frame(2 * TICK_NANOS + 1, false, |dt, inputs| {
        seen.borrow_mut().push((dt, inputs.to_vec()))
    });
    assert_eq!(r, (2, Action::Acquire { timeout: None }));
    assert_eq!(
        *seen.borrow(),
        vec![(TICK_NANOS, vec![Input::Char('w')]), (TICK_NANOS, vec![Input::Char('w')])]
    );
    assert!(a.window.inputs().is_empty());
    assert_eq!(a.window.accumulated(), 1);
    assert_eq!(a.vulkan.phase(), Phase::Acquiring);
}

#[test]
fn frame_in_the_middle_of_a_frame_still_runs_ticks() {
    let mut a = app(0);
    assert_eq!(a.frame(TICK_NANOS, false, |_, _| ()), (1, Action::Acquire { timeout: None }));
    assert_eq!(a.frame(2 * TICK_NANOS, false, |_, _| ()), (1, Action::Ignored));
    assert_eq!(a.vulkan.phase(), Phase::Acquiring);
}
