//! The frame synchroniser: the completion token of the frame submitted
//! last, and the viewport that frames are drawn with.
//!
//! One frame is in flight at a time. The token of that frame is held here
//! until the graphics processor is known to be done with it; the next
//! submission takes it, to be ordered behind it, and leaves an idle token in
//! its place.

use vstd::prelude::*;
use crate::swapchain::{Extent, Swapchain};

verus! {

/// Stands for the completion of submitted work. A token is not copied: it
/// is held in one place and handed on.
#[derive(Debug, PartialEq, Eq, Structural)]
pub enum FrameToken {
    /// Nothing to wait for: work ordered behind this token starts at once.
    Idle,
    /// The completion of the frame with this serial number.
    Frame(u64),
}

/// The part of the image that is drawn to: all of it, from the top left.
#[derive(Clone, Copy, Debug, PartialEq, Eq, Structural)]
pub struct Viewport {
    pub width: u32,
    pub height: u32,
}

impl Viewport {
    /// The viewport that covers an image of size `extent`.
    pub open spec fn covering(extent: Extent) -> Viewport {
        Viewport { width: extent.width, height: extent.height }
    }
}

/// What a `State` is, to its callers.
pub struct StateView {
    pub viewport: Viewport,
    pub prev_frame: FrameToken,
}

impl StateView {
    /// The state that goes with a chain of size `extent` and no work in flight.
    pub open spec fn initial(extent: Extent) -> StateView {
        StateView { viewport: Viewport::covering(extent), prev_frame: FrameToken::Idle }
    }

    /// The state once the token has been handed out or given up.
    pub open spec fn idle(self) -> StateView {
        StateView { prev_frame: FrameToken::Idle, ..self }
    }

    /// The state after a clean-up, where `finished` tells whether the
    /// graphics processor is done with the frame submitted last.
    pub open spec fn cleaned(self, finished: bool) -> StateView {
        if finished {
            self.idle()
        } else {
            self
        }
    }
}

/// Tracks the frame in flight.
#[derive(Debug)]
pub struct State {
    viewport: Viewport,
    prev_frame: FrameToken,
}

impl View for State {
    type V = StateView;

    closed spec fn view(&self) -> StateView {
        StateView { viewport: self.viewport, prev_frame: self.prev_frame }
    }
}

impl State {
    /// The state for a chain that has just been built: the viewport covers
    /// its images and no work is in flight.
    pub fn new(swapchain: &Swapchain) -> (s: Self)
        ensures
            s@ == StateView::initial(swapchain@.extent),
    {
        let extent = swapchain.extent();
        Self {
            viewport: Viewport { width: extent.width, height: extent.height },
            prev_frame: FrameToken::Idle,
        }
    }

    /// The viewport that frames are drawn with.
    pub fn viewport(&self) -> (v: Viewport)
        ensures
            v == self@.viewport,
    {
        self.viewport
    }

    /// The token of the frame submitted last, without taking it.
    pub fn prev_frame(&self) -> (t: &FrameToken)
        ensures
            *t == self@.prev_frame,
    {
        &self.prev_frame
    }

    /// Replaces the viewport.
    pub fn set_viewport(&mut self, viewport: Viewport)
        ensures
            final(self)@ == (StateView { viewport, ..old(self)@ }),
    {
        self.viewport = viewport;
    }

    /// Hands out the token of the frame submitted last and leaves an idle
    /// token in its place.
    pub fn take_prev_frame(&mut self) -> (t: FrameToken)
        ensures
            t == old(self)@.prev_frame,
            final(self)@ == old(self)@.idle(),
    {
        let mut t = FrameToken::Idle;
        core::mem::swap(&mut self.prev_frame, &mut t);
        t
    }

    /// Installs `frame` as the token of the frame submitted last.
    pub fn replace_frame(&mut self, frame: FrameToken)
        ensures
            final(self)@ == (StateView { prev_frame: frame, ..old(self)@ }),
    {
        self.prev_frame = frame;
    }

    /// Gives up the token at hand: what is submitted next waits for nothing.
    pub fn reset(&mut self)
        ensures
            final(self)@ == old(self)@.idle(),
    {
        self.prev_frame = FrameToken::Idle;
    }

    /// Lets go of what was held for the frame submitted last, if the
    /// graphics processor is done with it; `finished` tells whether it is.
    /// Where nothing has finished, nothing changes.
    pub fn cleanup_frame(&mut self, finished: bool)
        ensures
            final(self)@ == old(self)@.cleaned(finished),
            !finished ==> final(self)@ == old(self)@,
            old(self)@.prev_frame is Idle ==> final(self)@ == old(self)@,
    {
        if finished {
            self.prev_frame = FrameToken::Idle;
        }
    }
}

/// A clean-up changes nothing where nothing has finished or nothing is in
/// flight, and a second clean-up changes nothing after the first.
pub proof fn lemma_cleanup_idempotent(s: StateView, finished: bool)
    ensures
        s.cleaned(false) == s,
        s.prev_frame is Idle ==> s.cleaned(finished) == s,
        s.cleaned(finished).cleaned(finished) == s.cleaned(finished),
{
}

} // verus!
