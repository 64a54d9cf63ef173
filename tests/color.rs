use flextrack::color::{argb_channels, rgb_channels};

#[test]
fn rgb_channels_of_layout_colour() {
    assert_eq!(rgb_channels(0x5acd7d), (0x5a, 0xcd, 0x7d));
    assert_eq!(rgb_channels(0x000000), (0, 0, 0));
}

#[test]
fn rgb_channels_ignore_alpha_byte() {
    assert_eq!(rgb_channels(0xff102030), (0x10, 0x20, 0x30));
}

#[test]
fn argb_channels_in_order() {
    assert_eq!(argb_channels(0x80123456), (0x80, 0x12, 0x34, 0x56));
    assert_eq!(argb_channels(0xffffffff), (0xff, 0xff, 0xff, 0xff));
}
