//! The raw call interface to the collaborator.
//!
//! The collaborator is the vendor-supplied, stateful, process-wide library
//! that performs the actual hardware control.  This module models it as the
//! [`SdkPort`] trait: one method per raw operation, each taking the wire
//! primitives (integer codes, percentage channels, millisecond counts,
//! path strings) and answering what the collaborator answered.
//!
//! Every port carries a ghost log of the raw calls made through it, each
//! paired with the outcome the collaborator reported.  A method's contract
//! says exactly one thing: the call it stands for was appended to the log
//! with the outcome it returned.  Nothing is promised about the outcome
//! itself — whether a call succeeds is the collaborator's decision — so
//! everything proved over a port holds for any implementation: the verified
//! simulator in this crate, or an unverified binding to the real library.

use vstd::prelude::*;

verus! {

/// A raw operation with its wire-level arguments, as handed to the
/// collaborator.
pub enum RawCall {
    Init,
    InitWithName(Seq<char>),
    GetSdkVersion,
    SetTargetDevice(i32),
    SetLighting(i32, i32, i32),
    SetLightingForTargetZone(i32, i32, i32, i32, i32),
    SaveCurrentLighting,
    RestoreLighting,
    FlashLighting(i32, i32, i32, i32, i32),
    PulseLighting(i32, i32, i32, i32, i32),
    StopEffects,
    SetLightingFromBitmap(Seq<u8>),
    ExcludeKeysFromBitmap(Seq<i32>),
    SetLightingForKeyWithScanCode(i32, i32, i32, i32),
    SetLightingForKeyWithHidCode(i32, i32, i32, i32),
    SetLightingForKeyWithQuartzCode(i32, i32, i32, i32),
    SetLightingForKeyWithKeyName(i32, i32, i32, i32),
    SaveLightingForKey(i32),
    RestoreLightingForKey(i32),
    FlashSingleKey(i32, i32, i32, i32, i32, i32),
    PulseSingleKey(i32, i32, i32, i32, i32, i32, i32, i32, bool),
    StopEffectsOnKey(i32),
    Shutdown,
    SetConfigOptionLabel(Seq<char>, Seq<char>),
    GetConfigOptionBool(Seq<char>, bool),
    GetConfigOptionColor(Seq<char>, i32, i32, i32),
    GetConfigOptionRange(Seq<char>, i32, i32, i32),
    GetConfigOptionRect(Seq<char>, i32, i32, i32, i32),
}

/// What the collaborator answered to one raw call.
///
/// `Flag` is the plain success boolean most calls return.  The read-style
/// calls populate an output slot only on success, so their outcome is the
/// reported value or `None` for failure.  `NoResult` is for the one call
/// with no result at all, the shutdown.
pub enum RawOut {
    Flag(bool),
    NoResult,
    Version(Option<(i32, i32, i32)>),
    BoolValue(Option<bool>),
    ColorValue(Option<(i32, i32, i32)>),
    RangeValue(Option<i32>),
    RectValue(Option<(i32, i32, i32, i32)>),
}

/// One raw call together with the outcome the collaborator reported for it.
pub struct Event {
    pub call: RawCall,
    pub out: RawOut,
}

/// Builds a log event.
pub open spec fn ev(call: RawCall, out: RawOut) -> Event {
    Event { call, out }
}

/// Builds the event of a call that reports a plain success boolean.
pub open spec fn flag_ev(call: RawCall, ok: bool) -> Event {
    Event { call, out: RawOut::Flag(ok) }
}

/// How many shutdown calls a log holds.
pub open spec fn shutdown_count(log: Seq<Event>) -> nat
    decreases log.len(),
{
    if log.len() == 0 {
        0
    } else {
        shutdown_count(log.drop_last()) + if log.last().call is Shutdown {
            1nat
        } else {
            0nat
        }
    }
}

/// Appending the shutdown call to a log raises its shutdown count by
/// exactly one.
pub proof fn lemma_shutdown_adds_one(log: Seq<Event>)
    ensures
        shutdown_count(log.push(ev(RawCall::Shutdown, RawOut::NoResult))) == shutdown_count(log)
            + 1,
{
    assert(log.push(ev(RawCall::Shutdown, RawOut::NoResult)).drop_last() =~= log);
}

/// Appending any call other than the shutdown leaves a log's shutdown count
/// unchanged.
pub proof fn lemma_other_call_keeps_count(log: Seq<Event>, e: Event)
    requires
        !(e.call is Shutdown),
    ensures
        shutdown_count(log.push(e)) == shutdown_count(log),
{
    assert(log.push(e).drop_last() =~= log);
}

/// Whether a string holds an embedded terminator byte.  The collaborator
/// takes the registration name as a C string, which cannot carry one; a name
/// that does is a caller-side error.
pub open spec fn has_nul(s: Seq<char>) -> bool {
    exists|i: int| 0 <= i < s.len() && s[i] == '\0'
}

/// The raw call interface: one method per operation of the collaborator.
///
/// An implementation performs the operation and reports the collaborator's
/// answer; its log grows by exactly that call, paired with that answer.
pub trait SdkPort: Sized {
    /// The raw calls made through this port so far, each with the outcome
    /// the collaborator reported.  The default stands for a port with no
    /// recorded history; a port whose contracts are to mean anything
    /// overrides it with its own model.
    open spec fn log(&self) -> Seq<Event> {
        Seq::empty()
    }

    /// Checks for another running instance, initializes, saves the current
    /// lighting and stops running effects.  False means the connection is
    /// broken or another instance is live.
    fn init(&mut self) -> (ok: bool)
        ensures
            final(self).log() == old(self).log().push(flag_ev(RawCall::Init, ok)),
    ;

    /// As `init`, and registers the integration under the given display
    /// name.  The name takes effect only on the very first initialize call
    /// of the collaborator's lifetime.
    fn init_with_name(&mut self, name: &str) -> (ok: bool)
        requires
            !has_nul(name@),
        ensures
            final(self).log() == old(self).log().push(
                flag_ev(RawCall::InitWithName(name@), ok),
            ),
    ;

    /// Reports the installed collaborator version as major, minor and build
    /// numbers, or `None` when it cannot be retrieved.
    fn get_sdk_version(&mut self) -> (r: Option<(i32, i32, i32)>)
        ensures
            final(self).log() == old(self).log().push(
                ev(RawCall::GetSdkVersion, RawOut::Version(r)),
            ),
    ;

    /// Scopes future calls to the device classes in the given bitmask.
    fn set_target_device(&mut self, target_device: i32) -> (ok: bool)
        ensures
            final(self).log() == old(self).log().push(
                flag_ev(RawCall::SetTargetDevice(target_device), ok),
            ),
    ;

    /// Sets the lighting of all targeted devices to the given percentages.
    fn set_lighting(&mut self, red: i32, green: i32, blue: i32) -> (ok: bool)
        ensures
            final(self).log() == old(self).log().push(
                flag_ev(RawCall::SetLighting(red, green, blue), ok),
            ),
    ;

    /// Sets the lighting of one zone on all devices of one class.
    fn set_lighting_for_target_zone(
        &mut self,
        device_type: i32,
        zone: i32,
        red: i32,
        green: i32,
        blue: i32,
    ) -> (ok: bool)
        ensures
            final(self).log() == old(self).log().push(
                flag_ev(RawCall::SetLightingForTargetZone(device_type, zone, red, green, blue), ok),
            ),
    ;

    /// Saves the current lighting for a later restore.
    fn save_current_lighting(&mut self) -> (ok: bool)
        ensures
            final(self).log() == old(self).log().push(flag_ev(RawCall::SaveCurrentLighting, ok)),
    ;

    /// Restores the last saved lighting.
    fn restore_lighting(&mut self) -> (ok: bool)
        ensures
            final(self).log() == old(self).log().push(flag_ev(RawCall::RestoreLighting, ok)),
    ;

    /// Plays a flashing effect at the given interval for the given duration,
    /// both in milliseconds; a zero duration runs until stopped.
    fn flash_lighting(
        &mut self,
        red: i32,
        green: i32,
        blue: i32,
        duration_ms: i32,
        interval_ms: i32,
    ) -> (ok: bool)
        ensures
            final(self).log() == old(self).log().push(
                flag_ev(RawCall::FlashLighting(red, green, blue, duration_ms, interval_ms), ok),
            ),
    ;

    /// Plays a pulsing effect at the given interval for the given duration,
    /// both in milliseconds; a zero duration runs until stopped.
    fn pulse_lighting(
        &mut self,
        red: i32,
        green: i32,
        blue: i32,
        duration_ms: i32,
        interval_ms: i32,
    ) -> (ok: bool)
        ensures
            final(self).log() == old(self).log().push(
                flag_ev(RawCall::PulseLighting(red, green, blue, duration_ms, interval_ms), ok),
            ),
    ;

    /// Stops any running flash or pulse preset on the targeted devices.
    fn stop_effects(&mut self) -> (ok: bool)
        ensures
            final(self).log() == old(self).log().push(flag_ev(RawCall::StopEffects, ok)),
    ;

    /// Uploads a flattened per-key color bitmap.
    fn set_lighting_from_bitmap(&mut self, bitmap: &Vec<u8>) -> (ok: bool)
        ensures
            final(self).log() == old(self).log().push(
                flag_ev(RawCall::SetLightingFromBitmap(bitmap@), ok),
            ),
    ;

    /// Marks the keys with the given native codes to be skipped by bitmap
    /// uploads.
    fn exclude_keys_from_bitmap(&mut self, codes: &Vec<i32>) -> (ok: bool)
        ensures
            final(self).log() == old(self).log().push(
                flag_ev(RawCall::ExcludeKeysFromBitmap(codes@), ok),
            ),
    ;

    /// Sets one key, addressed by its scan code, to the given color.  The
    /// scan-code space is an addressing scheme of its own, distinct from
    /// the key-name codes.
    fn set_lighting_for_key_with_scan_code(
        &mut self,
        code: i32,
        red: i32,
        green: i32,
        blue: i32,
    ) -> (ok: bool)
        ensures
            final(self).log() == old(self).log().push(
                flag_ev(RawCall::SetLightingForKeyWithScanCode(code, red, green, blue), ok),
            ),
    ;

    /// Sets one key, addressed by its HID code, to the given color.
    fn set_lighting_for_key_with_hid_code(
        &mut self,
        code: i32,
        red: i32,
        green: i32,
        blue: i32,
    ) -> (ok: bool)
        ensures
            final(self).log() == old(self).log().push(
                flag_ev(RawCall::SetLightingForKeyWithHidCode(code, red, green, blue), ok),
            ),
    ;

    /// Sets one key, addressed by its platform ("quartz") code, to the
    /// given color.
    fn set_lighting_for_key_with_quartz_code(
        &mut self,
        code: i32,
        red: i32,
        green: i32,
        blue: i32,
    ) -> (ok: bool)
        ensures
            final(self).log() == old(self).log().push(
                flag_ev(RawCall::SetLightingForKeyWithQuartzCode(code, red, green, blue), ok),
            ),
    ;

    /// Sets one key, addressed by its native code, to the given color.
    fn set_lighting_for_key_with_key_name(
        &mut self,
        code: i32,
        red: i32,
        green: i32,
        blue: i32,
    ) -> (ok: bool)
        ensures
            final(self).log() == old(self).log().push(
                flag_ev(RawCall::SetLightingForKeyWithKeyName(code, red, green, blue), ok),
            ),
    ;

    /// Saves the current color of one key.
    fn save_lighting_for_key(&mut self, code: i32) -> (ok: bool)
        ensures
            final(self).log() == old(self).log().push(
                flag_ev(RawCall::SaveLightingForKey(code), ok),
            ),
    ;

    /// Restores the saved color of one key.
    fn restore_lighting_for_key(&mut self, code: i32) -> (ok: bool)
        ensures
            final(self).log() == old(self).log().push(
                flag_ev(RawCall::RestoreLightingForKey(code), ok),
            ),
    ;

    /// Flashes one key between the given color and black.
    fn flash_single_key(
        &mut self,
        code: i32,
        red: i32,
        green: i32,
        blue: i32,
        duration_ms: i32,
        interval_ms: i32,
    ) -> (ok: bool)
        ensures
            final(self).log() == old(self).log().push(
                flag_ev(
                    RawCall::FlashSingleKey(code, red, green, blue, duration_ms, interval_ms),
                    ok,
                ),
            ),
    ;

    /// Pulses one key from a start color to an end color.
    fn pulse_single_key(
        &mut self,
        code: i32,
        start_red: i32,
        start_green: i32,
        start_blue: i32,
        end_red: i32,
        end_green: i32,
        end_blue: i32,
        duration_ms: i32,
        infinite: bool,
    ) -> (ok: bool)
        ensures
            final(self).log() == old(self).log().push(
                flag_ev(
                    RawCall::PulseSingleKey(
                        code,
                        start_red,
                        start_green,
                        start_blue,
                        end_red,
                        end_green,
                        end_blue,
                        duration_ms,
                        infinite,
                    ),
                    ok,
                ),
            ),
    ;

    /// Stops any running effect on one key.
    fn stop_effects_on_key(&mut self, code: i32) -> (ok: bool)
        ensures
            final(self).log() == old(self).log().push(
                flag_ev(RawCall::StopEffectsOnKey(code), ok),
            ),
    ;

    /// Restores the last saved lighting and releases the collaborator.  The
    /// one call with no result to check.
    fn shutdown(&mut self)
        ensures
            final(self).log() == old(self).log().push(ev(RawCall::Shutdown, RawOut::NoResult)),
    ;

    /// Sets the display label of a configuration option.  False typically
    /// means a malformed path.
    fn set_config_option_label(&mut self, path: &str, label: &str) -> (ok: bool)
        ensures
            final(self).log() == old(self).log().push(
                flag_ev(RawCall::SetConfigOptionLabel(path@, label@), ok),
            ),
    ;

    /// Reads a boolean option: the user's choice, or the default echoed
    /// back; `None` when the call itself failed.
    fn get_config_option_bool(&mut self, path: &str, default: bool) -> (r: Option<bool>)
        ensures
            final(self).log() == old(self).log().push(
                ev(RawCall::GetConfigOptionBool(path@, default), RawOut::BoolValue(r)),
            ),
    ;

    /// Reads a color option, each channel defaulted independently.
    fn get_config_option_color(
        &mut self,
        path: &str,
        default_red: i32,
        default_green: i32,
        default_blue: i32,
    ) -> (r: Option<(i32, i32, i32)>)
        ensures
            final(self).log() == old(self).log().push(
                ev(
                    RawCall::GetConfigOptionColor(path@, default_red, default_green, default_blue),
                    RawOut::ColorValue(r),
                ),
            ),
    ;

    /// Reads a ranged integer option; the collaborator is responsible for
    /// keeping the value inside the inclusive bounds.
    fn get_config_option_range(&mut self, path: &str, default: i32, min: i32, max: i32) -> (r:
        Option<i32>)
        ensures
            final(self).log() == old(self).log().push(
                ev(RawCall::GetConfigOptionRange(path@, default, min, max), RawOut::RangeValue(r)),
            ),
    ;

    /// Reads a rectangle option as x, y, width and height.
    fn get_config_option_rect(
        &mut self,
        path: &str,
        default_x: i32,
        default_y: i32,
        default_width: i32,
        default_height: i32,
    ) -> (r: Option<(i32, i32, i32, i32)>)
        ensures
            final(self).log() == old(self).log().push(
                ev(
                    RawCall::GetConfigOptionRect(
                        path@,
                        default_x,
                        default_y,
                        default_width,
                        default_height,
                    ),
                    RawOut::RectValue(r),
                ),
            ),
    ;
}

} // verus!
