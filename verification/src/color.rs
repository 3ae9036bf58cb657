//! Color and device-class value types.

use vstd::prelude::*;

verus! {

/// An RGB color as three percentage channels.
///
/// Each channel is meant to lie in 0 to 100; the type does not clamp, and an
/// out-of-range value is passed through to the collaborator, whose behavior
/// for it is unspecified.  Keeping channels in range is the caller's
/// responsibility.
#[derive(Clone, Copy, Debug, PartialEq, Eq, Structural)]
pub struct Color {
    pub red: i32,
    pub green: i32,
    pub blue: i32,
}

impl Color {
    /// Builds a color from its three channels.
    pub fn new(red: i32, green: i32, blue: i32) -> (c: Color)
        ensures
            c.red == red,
            c.green == green,
            c.blue == blue,
    {
        Color { red, green, blue }
    }
}

impl core::convert::From<(i32, i32, i32)> for Color {
    fn from(color: (i32, i32, i32)) -> (c: Color) {
        Color { red: color.0, green: color.1, blue: color.2 }
    }
}

impl vstd::std_specs::convert::FromSpecImpl<(i32, i32, i32)> for Color {
    open spec fn obeys_from_spec() -> bool {
        true
    }

    open spec fn from_spec(color: (i32, i32, i32)) -> Color {
        Color { red: color.0, green: color.1, blue: color.2 }
    }
}

/// The device classes the collaborator distinguishes for zonal lighting.
#[derive(Clone, Copy, Debug, PartialEq, Eq, Structural)]
pub enum DeviceType {
    Keyboard,
    Mouse,
    Mousemat,
    Headset,
    Speaker,
}

/// The integer code the collaborator uses for each device class.
pub open spec fn device_code(d: DeviceType) -> i32 {
    match d {
        DeviceType::Keyboard => 0x0,
        DeviceType::Mouse => 0x3,
        DeviceType::Mousemat => 0x4,
        DeviceType::Headset => 0x8,
        DeviceType::Speaker => 0xe,
    }
}

/// Converts a device class to the collaborator's integer code.
pub fn device_type_to_code(d: DeviceType) -> (c: i32)
    ensures
        c == device_code(d),
{
    match d {
        DeviceType::Keyboard => 0x0,
        DeviceType::Mouse => 0x3,
        DeviceType::Mousemat => 0x4,
        DeviceType::Headset => 0x8,
        DeviceType::Speaker => 0xe,
    }
}

} // verus!
