//! The application loop's decisions: where each platform event goes, and
//! what one iteration of the loop does.

use vstd::prelude::*;
use crate::events::{device_input, from_device, from_window, window_input, DeviceEvent, WindowEvent};
use crate::input::Input;
use crate::vulkan::{Action, Vulkan};
use crate::window::{Window, WindowView, TICK_NANOS};

verus! {

/// What the platform's event loop delivers.
#[derive(Clone, Copy, Debug, PartialEq, Eq)]
pub enum PlatformEvent {
    /// Something about the window.
    Window(WindowEvent),
    /// Something about an input device.
    Device(DeviceEvent),
    /// All events of this iteration have been delivered.
    MainEventsCleared,
    /// Anything else.
    Other,
}

/// What the event loop is to do next.
#[derive(Clone, Copy, Debug, PartialEq, Eq, Structural)]
pub enum Flow {
    /// Go on delivering events.
    Poll,
    /// Leave the loop.
    Exit,
    /// Run the due ticks and render one frame, by calling `frame`.
    Frame,
}

/// The tick buffer and the render dispatcher of one window.
pub struct App {
    pub vulkan: Vulkan,
    pub window: Window,
}

impl App {
    /// An application that renders through `vulkan` and whose clock starts
    /// at `now`.
    pub fn new(vulkan: Vulkan, now: u64) -> (app: Self)
        ensures
            app.vulkan@ == vulkan@,
            app.window@ == WindowView::fresh(now),
    {
        Self { vulkan, window: Window::new(now) }
    }

    /// Routes one platform event.
    ///
    /// A request to close ends the loop. A resize marks the surface stale.
    /// Any other window or device event is translated and, if it is an
    /// input, buffered for the next tick. The end of an iteration's events
    /// asks for a frame. Nothing else has an effect.
    pub fn handle(&mut self, event: PlatformEvent) -> (flow: Flow)
        ensures
            match event {
                PlatformEvent::Window(WindowEvent::CloseRequested) => {
                    &&& flow == Flow::Exit
                    &&& final(self).vulkan@ == old(self).vulkan@
                    &&& final(self).window@ == old(self).window@
                },
                PlatformEvent::Window(WindowEvent::Resized) => {
                    &&& flow == Flow::Poll
                    &&& final(self).vulkan@ == old(self).vulkan@.stale()
                    &&& final(self).window@ == old(self).window@
                },
                PlatformEvent::Window(we) => {
                    &&& flow == Flow::Poll
                    &&& final(self).vulkan@ == old(self).vulkan@
                    &&& final(self).window@ == match window_input(we) {
                        Some(input) => old(self).window@.pushed(input),
                        None => old(self).window@,
                    }
                },
                PlatformEvent::Device(de) => {
                    &&& flow == Flow::Poll
                    &&& final(self).vulkan@ == old(self).vulkan@
                    &&& final(self).window@ == match device_input(de) {
                        Some(input) => old(self).window@.pushed(input),
                        None => old(self).window@,
                    }
                },
                PlatformEvent::MainEventsCleared => {
                    &&& flow == Flow::Frame
                    &&& final(self).vulkan@ == old(self).vulkan@
                    &&& final(self).window@ == old(self).window@
                },
                PlatformEvent::Other => {
                    &&& flow == Flow::Poll
                    &&& final(self).vulkan@ == old(self).vulkan@
                    &&& final(self).window@ == old(self).window@
                },
            },
    {
        match event {
            PlatformEvent::Window(WindowEvent::CloseRequested) => Flow::Exit,
            PlatformEvent::Window(WindowEvent::Resized) => {
                self.vulkan.mark_stale();
                Flow::Poll
            },
            PlatformEvent::Window(we) => {
                if let Some(input) = from_window(we) {
                    self.window.push_input(input);
                }
                Flow::Poll
            },
            PlatformEvent::Device(de) => {
                if let Some(input) = from_device(de) {
                    self.window.push_input(input);
                }
                Flow::Poll
            },
            PlatformEvent::MainEventsCleared => Flow::Frame,
            PlatformEvent::Other => Flow::Poll,
        }
    }

    /// One iteration of the loop, at time `now`: first every due tick runs,
    /// as in `Window::cycle`, then a frame is started, as in
    /// `Vulkan::prepare_render`. Returns the number of ticks run and the
    /// first action of the frame.
    pub fn frame<F: Fn(u64, &[Input])>(&mut self, now: u64, finished: bool, update: F) -> (r: (
        u64,
        Action,
    ))
        requires
            forall|inputs: &[Input]|
                inputs@ == old(self).window@.snapshot() ==> call_requires(
                    update,
                    (TICK_NANOS, inputs),
                ),
        ensures
            r.0 == old(self).window@.ticks_due(now),
            final(self).window@ == old(self).window@.cycled(now),
            r.0 > 0 ==> exists|inputs: &[Input]|
                inputs@ == old(self).window@.snapshot() && call_ensures(
                    update,
                    (TICK_NANOS, inputs),
                    (),
                ),
            r.1 == old(self).vulkan@.prepare_action(),
            final(self).vulkan@ == old(self).vulkan@.prepared(finished),
    {
        let ticks = self.window.cycle(now, update);
        let action = self.vulkan.prepare_render(finished);
        (ticks, action)
    }
}

} // verus!
