//! Fault reporting for wrapped operations.
//!
//! The collaborator reports failure of a call uniformly as a boolean
//! `false`.  Every wrapped operation turns that into a [`Fault`] carrying the
//! operation's identity, so a caller can tell which call was rejected.

use vstd::prelude::*;

verus! {

/// The identity of a wrapped operation, carried inside a [`Fault`] so that a
/// rejected call can be told apart from every other one.
#[derive(Clone, Copy, Debug, PartialEq, Eq, Structural)]
pub enum Op {
    Version,
    SetTargetDevices,
    SetLighting,
    SetLightingForZone,
    SaveLighting,
    RestoreLighting,
    FlashLighting,
    PulseLighting,
    StopEffects,
    SetLightingFromBitmap,
    ExcludeKeysFromBitmap,
    SetLightingForKey,
    SetLightingForKeyScanCode,
    SetLightingForKeyHidCode,
    SetLightingForKeyQuartzCode,
    SaveLightingForKey,
    RestoreLightingForKey,
    FlashKey,
    PulseKey,
    StopEffectsOnKey,
    SetConfigOptionLabel,
    GetBooleanOption,
    GetColorOption,
    GetRangeOption,
    GetRectOption,
}

/// A reported fault.
///
/// `Rejected` is environmental: the collaborator answered `false` to the
/// named operation (its connection is typically lost, and later calls on the
/// same session are expected to fail the same way).  `Unmappable` is a
/// caller-side error: a character outside the documented ASCII map was handed
/// to the key lookup.
#[derive(Clone, Copy, Debug, PartialEq, Eq, Structural)]
pub enum Fault {
    Rejected(Op),
    Unmappable(char),
}

} // verus!
