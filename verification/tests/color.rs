use lightsync::color::device_type_to_code;
use lightsync::lighting;
use lightsync::Color;
use lightsync::DeviceType;

#[test]
fn new_keeps_the_three_channels() {
    let c = Color::new(100, 0, 50);
    assert_eq!(c.red, 100);
    assert_eq!(c.green, 0);
    assert_eq!(c.blue, 50);
}

#[test]
fn a_channel_triple_converts_into_a_color() {
    let c = Color::from((1, 2, 3));
    assert_eq!(c, Color::new(1, 2, 3));
}

#[test]
fn device_classes_use_their_documented_codes() {
    assert_eq!(device_type_to_code(DeviceType::Keyboard), 0x0);
    assert_eq!(device_type_to_code(DeviceType::Mouse), 0x3);
    assert_eq!(device_type_to_code(DeviceType::Mousemat), 0x4);
    assert_eq!(device_type_to_code(DeviceType::Headset), 0x8);
    assert_eq!(device_type_to_code(DeviceType::Speaker), 0xe);
}

#[test]
fn lighting_masks_combine_into_all() {
    assert_eq!(lighting::MONOCHROME, 1);
    assert_eq!(lighting::RGB, 2);
    assert_eq!(lighting::PERKEY_RGB, 4);
    assert_eq!(
        lighting::MONOCHROME | lighting::RGB | lighting::PERKEY_RGB,
        lighting::ALL
    );
}
