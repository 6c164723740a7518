use tickframe::device::{Device, QueueFamily, QUEUE_GRAPHICS};

fn family(queue_flags: u32, supports_surface: bool) -> QueueFamily {
    QueueFamily { queue_flags, supports_surface }
}

#[test]
fn graphics_bit_is_the_lowest() {
    assert_eq!(QUEUE_GRAPHICS, ash::vk::QueueFlags::GRAPHICS.as_raw());
}

#[test]
fn no_device_no_choice() {
    assert!(Device::new(&vec![]).is_none());
    assert!(Device::new(&vec![vec![], vec![]]).is_none());
}

#[test]
fn family_must_draw_and_present() {
    let devices = vec![vec![family(0b0001, false), family(0b1110, true)]];
    assert!(Device::new(&devices).is_none());
}

#[test]
fn first_suitable_family_of_first_suitable_device() {
    let devices = vec![
        vec![family(0b0110, true), family(0b0001, false)],
        vec![family(0b0100, true), family(0b0010, true), family(0b0111, true), family(0b0001, true)],
        vec![family(0b0001, true)],
    ];
    let chosen = Device::new(&devices).unwrap();
    assert_eq!(chosen.physical_device(), 1);
    assert_eq!(chosen.queue_family_index(), 2);
}

#[test]
fn other_bits_do_not_stand_for_graphics() {
    let devices = vec![vec![family(0b1111_1110, true)], vec![family(0b1111_1111, true)]];
    let chosen = Device::new(&devices).unwrap();
    assert_eq!(chosen.physical_device(), 1);
    assert_eq!(chosen.queue_family_index(), 0);
}

#[test]
fn graphics_alone_is_enough() {
    let chosen = Device::new(&vec![vec![family(QUEUE_GRAPHICS, true)]]).unwrap();
    assert_eq!((chosen.physical_device(), chosen.queue_family_index()), (0, 0));
}
