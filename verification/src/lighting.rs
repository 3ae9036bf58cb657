//! Lighting-capability classes, used to scope which connected devices an
//! operation affects.
//!
//! The values form a bitmask: combine them with `|`, and pass the result to
//! the target-device call.  `ALL` is the union of the three classes and is
//! the collaborator's default scope.

use vstd::prelude::*;

verus! {

/// Devices with a single-color backlight.
pub const MONOCHROME: i32 = 0x1;

/// Devices with one RGB zone.
pub const RGB: i32 = 0x2;

/// Devices that can address each key's color independently.
pub const PERKEY_RGB: i32 = 0x4;

/// Every device class at once.
pub const ALL: i32 = 0x7;

} // verus!
