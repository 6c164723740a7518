use tickframe::input::Controls;

#[test]
fn controls_start_at_rest() {
    let c = Controls::new();
    assert!(!c.forward);
    assert!(!c.back);
    assert!(!c.left);
    assert!(!c.right);
    assert!(!c.up);
    assert!(!c.down);
    assert!(!c.mb_left);
    assert!(!c.mb_right);
    assert_eq!(c.mouse_position, (0, 0));
    assert_eq!(c.mouse_delta, (0, 0));
}
