use tickframe::state::{FrameToken, State, Viewport};
use tickframe::swapchain::{Extent, PresentMode, SurfaceCapabilities, SurfaceFormat, Swapchain};

fn chain(width: u32, height: u32) -> Swapchain {
    let caps = SurfaceCapabilities {
        min_image_count: 2,
        max_image_count: 0,
        current_extent: Extent { width, height },
        supported_transforms: 1,
        current_transform: 1,
    };
    Swapchain::builder()
        .capabilities(caps)
        .formats(vec![SurfaceFormat { format: 50, color_space: 0 }])
        .present_modes(vec![PresentMode::Fifo])
        .build(&Extent { width: 1, height: 1 })
        .unwrap()
}

#[test]
fn new_state_covers_the_chain_and_waits_for_nothing() {
    let s = State::new(&chain(800, 600));
    assert_eq!(s.viewport(), Viewport { width: 800, height: 600 });
    assert_eq!(*s.prev_frame(), FrameToken::Idle);
}

#[test]
fn set_viewport_replaces_only_the_viewport() {
    let mut s = State::new(&chain(800, 600));
    s.replace_frame(FrameToken::Frame(3));
    s.set_viewport(Viewport { width: 1024, height: 768 });
    assert_eq!(s.viewport(), Viewport { width: 1024, height: 768 });
    assert_eq!(*s.prev_frame(), FrameToken::Frame(3));
}

#[test]
fn take_hands_out_the_token_and_leaves_idle() {
    let mut s = State::new(&chain(800, 600));
    s.replace_frame(FrameToken::Frame(9));
    assert_eq!(s.take_prev_frame(), FrameToken::Frame(9));
    assert_eq!(*s.prev_frame(), FrameToken::Idle);
    assert_eq!(s.take_prev_frame(), FrameToken::Idle);
    assert_eq!(s.viewport(), Viewport { width: 800, height: 600 });
}

#[test]
fn replace_installs_the_newest_token() {
    let mut s = State::new(&chain(800, 600));
    s.replace_frame(FrameToken::Frame(1));
    s.replace_frame(FrameToken::Frame(2));
    assert_eq!(*s.prev_frame(), FrameToken::Frame(2));
}

#[test]
fn reset_gives_up_the_token() {
    let mut s = State::new(&chain(800, 600));
    s.replace_frame(FrameToken::Frame(5));
    s.reset();
    assert_eq!(*s.prev_frame(), FrameToken::Idle);
}

#[test]
fn cleanup_with_nothing_finished_changes_nothing() {
    let mut s = State::new(&chain(800, 600));
    s.cleanup_frame(false);
    assert_eq!(*s.prev_frame(), FrameToken::Idle);
    s.replace_frame(FrameToken::Frame(5));
    s.cleanup_frame(false);
    s.cleanup_frame(false);
    assert_eq!(*s.prev_frame(), FrameToken::Frame(5));
    assert_eq!(s.viewport(), Viewport { width: 800, height: 600 });
}

#[test]
fn cleanup_with_nothing_in_flight_changes_nothing() {
    let mut s = State::new(&chain(800, 600));
    s.cleanup_frame(true);
    assert_eq!(*s.prev_frame(), FrameToken::Idle);
    assert_eq!(s.viewport(), Viewport { width: 800, height: 600 });
}

#[test]
fn cleanup_lets_go_of_a_finished_frame_once() {
    let mut s = State::new(&chain(800, 600));
    s.replace_frame(FrameToken::Frame(5));
    s.cleanup_frame(true);
    assert_eq!(*s.prev_frame(), FrameToken::Idle);
    s.cleanup_frame(true);
    assert_eq!(*s.prev_frame(), FrameToken::Idle);
}
