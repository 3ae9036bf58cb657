//! The session handle and the typed operation facade.
//!
//! [`Sdk`] is the ownership-bearing proof that the collaborator is
//! initialized: the only way to obtain one is a successful initialize call,
//! every operation is a method on it, and releasing it is the only path to
//! the shutdown call.  Using an effect before initialization or after
//! shutdown is therefore impossible by construction, and the shutdown runs
//! exactly once.
//!
//! Every method's contract states, over the port's call log, exactly which
//! raw call it performs with which wire arguments, and that the
//! collaborator's boolean answer is surfaced as success or as a fault
//! carrying the operation's identity — never swallowed.
//!
//! Of the collaborator's configuration-option kinds, the boolean, color,
//! ranged-integer and rectangle readers are offered here.  Two further
//! kinds it knows — key-binding capture and multi-value select — have no
//! documented wire form upstream and are deliberately not offered rather
//! than guessed at.

use vstd::prelude::*;

use crate::bitmap::flat_bitmap;
use crate::bitmap::flatten_bitmap;
use crate::color::device_code;
use crate::color::device_type_to_code;
use crate::color::Color;
use crate::color::DeviceType;
use crate::fault::Fault;
use crate::fault::Op;
use crate::keys::key_code;
use crate::keys::key_to_native_code;
use crate::keys::Key;
use crate::port::ev;
use crate::port::Event;
use crate::port::flag_ev;
use crate::port::has_nul;
use crate::port::lemma_shutdown_adds_one;
use crate::port::shutdown_count;
use crate::port::RawCall;
use crate::port::RawOut;
use crate::port::SdkPort;

verus! {

/// A live session with the collaborator.
///
/// Holding a value of this type proves the collaborator reported a
/// successful initialize and has not been shut down through this handle.
/// [`Sdk::shutdown`] consumes the handle, so no call can follow the
/// shutdown.
pub struct Sdk<P: SdkPort> {
    port: P,
}

/// Opens a session: convenience for [`Sdk::init`].
pub fn init<P: SdkPort>(port: P) -> (r: Result<Sdk<P>, P>)
    ensures
        (match r {
            Ok(sdk) => sdk.log() == port.log().push(flag_ev(RawCall::Init, true)),
            Err(p) => p.log() == port.log().push(flag_ev(RawCall::Init, false)),
        }),
{
    Sdk::init(port)
}

/// Opens a named session: convenience for [`Sdk::init_with_name`].
pub fn init_with_name<P: SdkPort>(port: P, name: &str) -> (r: Result<Sdk<P>, P>)
    requires
        !has_nul(name@),
    ensures
        (match r {
            Ok(sdk) => sdk.log() == port.log().push(flag_ev(RawCall::InitWithName(name@), true)),
            Err(p) => p.log() == port.log().push(flag_ev(RawCall::InitWithName(name@), false)),
        }),
{
    Sdk::init_with_name(port, name)
}

impl<P: SdkPort> Sdk<P> {
    /// The raw calls made through this session's port, with the outcome the
    /// collaborator reported for each.
    pub closed spec fn log(&self) -> Seq<Event> {
        self.port.log()
    }

    /// Asks the collaborator to initialize.  On success the sole handle is
    /// returned and the collaborator's state is "initialized, all devices
    /// targeted, previous effects stopped".  On failure — the connection is
    /// broken, or another instance is already running — the port is handed
    /// back unchanged but for the failed call in its log.
    pub fn init(port: P) -> (r: Result<Sdk<P>, P>)
        ensures
            (match r {
                Ok(sdk) => sdk.log() == port.log().push(flag_ev(RawCall::Init, true)),
                Err(p) => p.log() == port.log().push(flag_ev(RawCall::Init, false)),
            }),
    {
        let mut p = port;
        let ok = p.init();
        if ok {
            Ok(Sdk { port: p })
        } else {
            Err(p)
        }
    }

    /// As [`Sdk::init`], and registers the integration under a display
    /// name.  The collaborator honors the name only on the very first
    /// initialize call of its process lifetime, which this wrapper cannot
    /// enforce.  The name must not hold an embedded terminator character:
    /// that is a caller-side error, excluded by contract.
    pub fn init_with_name(port: P, name: &str) -> (r: Result<Sdk<P>, P>)
        requires
            !has_nul(name@),
        ensures
            (match r {
                Ok(sdk) => sdk.log() == port.log().push(
                    flag_ev(RawCall::InitWithName(name@), true),
                ),
                Err(p) => p.log() == port.log().push(flag_ev(RawCall::InitWithName(name@), false)),
            }),
    {
        let mut p = port;
        let ok = p.init_with_name(name);
        if ok {
            Ok(Sdk { port: p })
        } else {
            Err(p)
        }
    }

    /// Retrieves the version of the collaborator installed on the user's
    /// system, as major, minor and build numbers.
    pub fn version(&mut self) -> (r: Result<(i32, i32, i32), Fault>)
        ensures
            (match r {
                Ok(v) => final(self).log() == old(self).log().push(
                    ev(RawCall::GetSdkVersion, RawOut::Version(Some(v))),
                ),
                Err(f) => f == Fault::Rejected(Op::Version) && final(self).log() == old(
                    self,
                ).log().push(ev(RawCall::GetSdkVersion, RawOut::Version(None))),
            }),
    {
        match self.port.get_sdk_version() {
            Some(v) => Ok(v),
            None => Err(Fault::Rejected(Op::Version)),
        }
    }

    /// Scopes all subsequent operations to the device classes in the given
    /// bitmask (see the lighting-capability constants); the default scope is
    /// every device.
    pub fn set_target_devices(&mut self, target_devices: i32) -> (r: Result<(), Fault>)
        ensures
            final(self).log() == old(self).log().push(
                flag_ev(RawCall::SetTargetDevice(target_devices), r is Ok),
            ),
            r matches Err(f) ==> f == Fault::Rejected(Op::SetTargetDevices),
    {
        let ok = self.port.set_target_device(target_devices);
        if ok {
            Ok(())
        } else {
            Err(Fault::Rejected(Op::SetTargetDevices))
        }
    }

    /// Sets the lighting color of all targeted devices.
    pub fn set_lighting(&mut self, color: Color) -> (r: Result<(), Fault>)
        ensures
            final(self).log() == old(self).log().push(
                flag_ev(RawCall::SetLighting(color.red, color.green, color.blue), r is Ok),
            ),
            r matches Err(f) ==> f == Fault::Rejected(Op::SetLighting),
    {
        let ok = self.port.set_lighting(color.red, color.green, color.blue);
        if ok {
            Ok(())
        } else {
            Err(Fault::Rejected(Op::SetLighting))
        }
    }

    /// Sets the lighting in one zone of the zonal devices of one class.
    /// The zone index is meaningful only for zonal, not per-key, devices.
    pub fn set_lighting_for_zone(&mut self, device_type: DeviceType, zone: i32, color: Color) -> (r:
        Result<(), Fault>)
        ensures
            final(self).log() == old(self).log().push(
                flag_ev(
                    RawCall::SetLightingForTargetZone(
                        device_code(device_type),
                        zone,
                        color.red,
                        color.green,
                        color.blue,
                    ),
                    r is Ok,
                ),
            ),
            r matches Err(f) ==> f == Fault::Rejected(Op::SetLightingForZone),
    {
        let code = device_type_to_code(device_type);
        let ok = self.port.set_lighting_for_target_zone(
            code,
            zone,
            color.red,
            color.green,
            color.blue,
        );
        if ok {
            Ok(())
        } else {
            Err(Fault::Rejected(Op::SetLightingForZone))
        }
    }

    /// Saves the current lighting so a temporary effect can be undone with
    /// [`Sdk::restore_lighting`].
    pub fn save_lighting(&mut self) -> (r: Result<(), Fault>)
        ensures
            final(self).log() == old(self).log().push(
                flag_ev(RawCall::SaveCurrentLighting, r is Ok),
            ),
            r matches Err(f) ==> f == Fault::Rejected(Op::SaveLighting),
    {
        let ok = self.port.save_current_lighting();
        if ok {
            Ok(())
        } else {
            Err(Fault::Rejected(Op::SaveLighting))
        }
    }

    /// Restores the last saved lighting.  Restoring without a prior save is
    /// collaborator-defined.
    pub fn restore_lighting(&mut self) -> (r: Result<(), Fault>)
        ensures
            final(self).log() == old(self).log().push(flag_ev(RawCall::RestoreLighting, r is Ok)),
            r matches Err(f) ==> f == Fault::Rejected(Op::RestoreLighting),
    {
        let ok = self.port.restore_lighting();
        if ok {
            Ok(())
        } else {
            Err(Fault::Rejected(Op::RestoreLighting))
        }
    }

    /// Saves the current lighting, plays a flashing effect at the given
    /// interval for the given duration, then restores the saved lighting.
    /// Durations are whole milliseconds; a duration of 0 plays until
    /// [`Sdk::stop_effects`].  A span that does not fit the collaborator's
    /// integer width is a caller-side error, excluded by contract rather
    /// than silently truncated.
    pub fn flash_lighting(&mut self, color: Color, duration_ms: u128, interval_ms: u128) -> (r:
        Result<(), Fault>)
        requires
            duration_ms <= 0x7fff_ffff,
            interval_ms <= 0x7fff_ffff,
        ensures
            final(self).log() == old(self).log().push(
                flag_ev(
                    RawCall::FlashLighting(
                        color.red,
                        color.green,
                        color.blue,
                        duration_ms as i32,
                        interval_ms as i32,
                    ),
                    r is Ok,
                ),
            ),
            r matches Err(f) ==> f == Fault::Rejected(Op::FlashLighting),
    {
        let ok = self.port.flash_lighting(
            color.red,
            color.green,
            color.blue,
            duration_ms as i32,
            interval_ms as i32,
        );
        if ok {
            Ok(())
        } else {
            Err(Fault::Rejected(Op::FlashLighting))
        }
    }

    /// Saves the current lighting, plays a pulsing effect at the given
    /// interval for the given duration, then restores the saved lighting.
    /// Durations as in [`Sdk::flash_lighting`].
    pub fn pulse_lighting(&mut self, color: Color, duration_ms: u128, interval_ms: u128) -> (r:
        Result<(), Fault>)
        requires
            duration_ms <= 0x7fff_ffff,
            interval_ms <= 0x7fff_ffff,
        ensures
            final(self).log() == old(self).log().push(
                flag_ev(
                    RawCall::PulseLighting(
                        color.red,
                        color.green,
                        color.blue,
                        duration_ms as i32,
                        interval_ms as i32,
                    ),
                    r is Ok,
                ),
            ),
            r matches Err(f) ==> f == Fault::Rejected(Op::PulseLighting),
    {
        let ok = self.port.pulse_lighting(
            color.red,
            color.green,
            color.blue,
            duration_ms as i32,
            interval_ms as i32,
        );
        if ok {
            Ok(())
        } else {
            Err(Fault::Rejected(Op::PulseLighting))
        }
    }

    /// Halts any running flash or pulse preset across the current device
    /// scope.
    pub fn stop_effects(&mut self) -> (r: Result<(), Fault>)
        ensures
            final(self).log() == old(self).log().push(flag_ev(RawCall::StopEffects, r is Ok)),
            r matches Err(f) ==> f == Fault::Rejected(Op::StopEffects),
    {
        let ok = self.port.stop_effects();
        if ok {
            Ok(())
        } else {
            Err(Fault::Rejected(Op::StopEffects))
        }
    }

    /// Flattens the 21-by-6 grid of four-byte cells row-major and uploads it
    /// to the per-key devices.  A cell with alpha 0 leaves its key
    /// unchanged.
    pub fn set_lighting_from_bitmap(&mut self, bitmap: &[[[u8; 4]; 21]; 6]) -> (r: Result<
        (),
        Fault,
    >)
        ensures
            final(self).log() == old(self).log().push(
                flag_ev(RawCall::SetLightingFromBitmap(flat_bitmap(*bitmap)), r is Ok),
            ),
            r matches Err(f) ==> f == Fault::Rejected(Op::SetLightingFromBitmap),
    {
        let payload = flatten_bitmap(bitmap);
        let ok = self.port.set_lighting_from_bitmap(&payload);
        if ok {
            Ok(())
        } else {
            Err(Fault::Rejected(Op::SetLightingFromBitmap))
        }
    }

    /// Marks a set of keys to be skipped by subsequent bitmap uploads, so
    /// explicit per-key effects can sit on top of a bitmap-driven
    /// background.
    pub fn exclude_keys_from_bitmap(&mut self, keys: &[Key]) -> (r: Result<(), Fault>)
        ensures
            final(self).log() == old(self).log().push(
                flag_ev(
                    RawCall::ExcludeKeysFromBitmap(
                        Seq::new(keys@.len(), |i: int| key_code(keys@[i])),
                    ),
                    r is Ok,
                ),
            ),
            r matches Err(f) ==> f == Fault::Rejected(Op::ExcludeKeysFromBitmap),
    {
        let mut codes: Vec<i32> = Vec::new();
        let mut i: usize = 0;
        while i < keys.len()
            invariant
                i <= keys@.len(),
                codes@.len() == i,
                forall|j: int| 0 <= j < i ==> codes@[j] == key_code(keys@[j]),
            decreases keys@.len() - i,
        {
            codes.push(key_to_native_code(keys[i]));
            i = i + 1;
        }
        assert(codes@ =~= Seq::new(keys@.len(), |i: int| key_code(keys@[i])));
        let ok = self.port.exclude_keys_from_bitmap(&codes);
        if ok {
            Ok(())
        } else {
            Err(Fault::Rejected(Op::ExcludeKeysFromBitmap))
        }
    }

    /// Sets one key to the given color on per-key devices.
    pub fn set_lighting_for_key(&mut self, key: Key, color: Color) -> (r: Result<(), Fault>)
        ensures
            final(self).log() == old(self).log().push(
                flag_ev(
                    RawCall::SetLightingForKeyWithKeyName(
                        key_code(key),
                        color.red,
                        color.green,
                        color.blue,
                    ),
                    r is Ok,
                ),
            ),
            r matches Err(f) ==> f == Fault::Rejected(Op::SetLightingForKey),
    {
        let code = key_to_native_code(key);
        let ok = self.port.set_lighting_for_key_with_key_name(
            code,
            color.red,
            color.green,
            color.blue,
        );
        if ok {
            Ok(())
        } else {
            Err(Fault::Rejected(Op::SetLightingForKey))
        }
    }

    /// Sets one key to the given color, addressing it by its raw scan
    /// code.  Scan, HID and platform codes are independent addressing
    /// schemes into the same physical key space and are not key-name
    /// codes; nothing converts between them here.
    pub fn set_lighting_for_key_with_scan_code(&mut self, code: i32, color: Color) -> (r: Result<
        (),
        Fault,
    >)
        ensures
            final(self).log() == old(self).log().push(
                flag_ev(
                    RawCall::SetLightingForKeyWithScanCode(
                        code,
                        color.red,
                        color.green,
                        color.blue,
                    ),
                    r is Ok,
                ),
            ),
            r matches Err(f) ==> f == Fault::Rejected(Op::SetLightingForKeyScanCode),
    {
        let ok = self.port.set_lighting_for_key_with_scan_code(
            code,
            color.red,
            color.green,
            color.blue,
        );
        if ok {
            Ok(())
        } else {
            Err(Fault::Rejected(Op::SetLightingForKeyScanCode))
        }
    }

    /// Sets one key to the given color, addressing it by its HID code.
    pub fn set_lighting_for_key_with_hid_code(&mut self, code: i32, color: Color) -> (r: Result<
        (),
        Fault,
    >)
        ensures
            final(self).log() == old(self).log().push(
                flag_ev(
                    RawCall::SetLightingForKeyWithHidCode(code, color.red, color.green, color.blue),
                    r is Ok,
                ),
            ),
            r matches Err(f) ==> f == Fault::Rejected(Op::SetLightingForKeyHidCode),
    {
        let ok = self.port.set_lighting_for_key_with_hid_code(
            code,
            color.red,
            color.green,
            color.blue,
        );
        if ok {
            Ok(())
        } else {
            Err(Fault::Rejected(Op::SetLightingForKeyHidCode))
        }
    }

    /// Sets one key to the given color, addressing it by its platform
    /// ("quartz") code.
    pub fn set_lighting_for_key_with_quartz_code(&mut self, code: i32, color: Color) -> (r: Result<
        (),
        Fault,
    >)
        ensures
            final(self).log() == old(self).log().push(
                flag_ev(
                    RawCall::SetLightingForKeyWithQuartzCode(
                        code,
                        color.red,
                        color.green,
                        color.blue,
                    ),
                    r is Ok,
                ),
            ),
            r matches Err(f) ==> f == Fault::Rejected(Op::SetLightingForKeyQuartzCode),
    {
        let ok = self.port.set_lighting_for_key_with_quartz_code(
            code,
            color.red,
            color.green,
            color.blue,
        );
        if ok {
            Ok(())
        } else {
            Err(Fault::Rejected(Op::SetLightingForKeyQuartzCode))
        }
    }

    /// Saves the current color of one key for a later
    /// [`Sdk::restore_lighting_for_key`].
    pub fn save_lighting_for_key(&mut self, key: Key) -> (r: Result<(), Fault>)
        ensures
            final(self).log() == old(self).log().push(
                flag_ev(RawCall::SaveLightingForKey(key_code(key)), r is Ok),
            ),
            r matches Err(f) ==> f == Fault::Rejected(Op::SaveLightingForKey),
    {
        let code = key_to_native_code(key);
        let ok = self.port.save_lighting_for_key(code);
        if ok {
            Ok(())
        } else {
            Err(Fault::Rejected(Op::SaveLightingForKey))
        }
    }

    /// Restores the saved color of one key.
    pub fn restore_lighting_for_key(&mut self, key: Key) -> (r: Result<(), Fault>)
        ensures
            final(self).log() == old(self).log().push(
                flag_ev(RawCall::RestoreLightingForKey(key_code(key)), r is Ok),
            ),
            r matches Err(f) ==> f == Fault::Rejected(Op::RestoreLightingForKey),
    {
        let code = key_to_native_code(key);
        let ok = self.port.restore_lighting_for_key(code);
        if ok {
            Ok(())
        } else {
            Err(Fault::Rejected(Op::RestoreLightingForKey))
        }
    }

    /// Starts a flashing effect on one key, alternating the given color and
    /// black.  Durations as in [`Sdk::flash_lighting`]; a duration of 0
    /// plays until [`Sdk::stop_effects_on_key`].
    pub fn flash_key(
        &mut self,
        key: Key,
        color: Color,
        duration_ms: u128,
        interval_ms: u128,
    ) -> (r: Result<(), Fault>)
        requires
            duration_ms <= 0x7fff_ffff,
            interval_ms <= 0x7fff_ffff,
        ensures
            final(self).log() == old(self).log().push(
                flag_ev(
                    RawCall::FlashSingleKey(
                        key_code(key),
                        color.red,
                        color.green,
                        color.blue,
                        duration_ms as i32,
                        interval_ms as i32,
                    ),
                    r is Ok,
                ),
            ),
            r matches Err(f) ==> f == Fault::Rejected(Op::FlashKey),
    {
        let code = key_to_native_code(key);
        let ok = self.port.flash_single_key(
            code,
            color.red,
            color.green,
            color.blue,
            duration_ms as i32,
            interval_ms as i32,
        );
        if ok {
            Ok(())
        } else {
            Err(Fault::Rejected(Op::FlashKey))
        }
    }

    /// Starts a pulsing effect on one key, fading from the start color to
    /// the end color and back.  With `infinite` the effect plays until
    /// [`Sdk::stop_effects_on_key`], regardless of the duration.
    pub fn pulse_key(
        &mut self,
        key: Key,
        start: Color,
        end: Color,
        duration_ms: u128,
        infinite: bool,
    ) -> (r: Result<(), Fault>)
        requires
            duration_ms <= 0x7fff_ffff,
        ensures
            final(self).log() == old(self).log().push(
                flag_ev(
                    RawCall::PulseSingleKey(
                        key_code(key),
                        start.red,
                        start.green,
                        start.blue,
                        end.red,
                        end.green,
                        end.blue,
                        duration_ms as i32,
                        infinite,
                    ),
                    r is Ok,
                ),
            ),
            r matches Err(f) ==> f == Fault::Rejected(Op::PulseKey),
    {
        let code = key_to_native_code(key);
        let ok = self.port.pulse_single_key(
            code,
            start.red,
            start.green,
            start.blue,
            end.red,
            end.green,
            end.blue,
            duration_ms as i32,
            infinite,
        );
        if ok {
            Ok(())
        } else {
            Err(Fault::Rejected(Op::PulseKey))
        }
    }

    /// Stops any ongoing effect on one key.
    pub fn stop_effects_on_key(&mut self, key: Key) -> (r: Result<(), Fault>)
        ensures
            final(self).log() == old(self).log().push(
                flag_ev(RawCall::StopEffectsOnKey(key_code(key)), r is Ok),
            ),
            r matches Err(f) ==> f == Fault::Rejected(Op::StopEffectsOnKey),
    {
        let code = key_to_native_code(key);
        let ok = self.port.stop_effects_on_key(code);
        if ok {
            Ok(())
        } else {
            Err(Fault::Rejected(Op::StopEffectsOnKey))
        }
    }

    /// Sets the option's display label first when one is supplied; with no
    /// label the port is left untouched.
    fn apply_label(&mut self, path: &str, label: Option<&str>) -> (r: Result<(), Fault>)
        ensures
            (match label {
                None => r is Ok && final(self).log() == old(self).log(),
                Some(l) => match r {
                    Ok(_) => final(self).log() == old(self).log().push(
                        flag_ev(RawCall::SetConfigOptionLabel(path@, l@), true),
                    ),
                    Err(f) => f == Fault::Rejected(Op::SetConfigOptionLabel) && final(self).log()
                        == old(self).log().push(
                        flag_ev(RawCall::SetConfigOptionLabel(path@, l@), false),
                    ),
                },
            }),
    {
        match label {
            None => Ok(()),
            Some(l) => {
                let ok = self.port.set_config_option_label(path, l);
                if ok {
                    Ok(())
                } else {
                    Err(Fault::Rejected(Op::SetConfigOptionLabel))
                }
            },
        }
    }

    /// Reads a user-configurable boolean option, or the supplied default
    /// when the user chose nothing.
    ///
    /// The path names the option, either bare (`"Warning"`) or inside a
    /// section (`"Flags/Warning"`).  A supplied label is registered for the
    /// path first — and only then is the option read; with no label the
    /// label call is never made.  A rejected label call is a hard fault
    /// (it indicates a malformed path) carrying the label operation; a
    /// rejected read carries the read operation.  The value handed back is
    /// exactly what the collaborator reported, default or user choice.
    pub fn get_boolean_option(&mut self, path: &str, default: bool, label: Option<&str>) -> (r:
        Result<bool, Fault>)
        ensures
            (match label {
                None => match r {
                    Ok(v) => final(self).log() == old(self).log().push(
                        ev(RawCall::GetConfigOptionBool(path@, default), RawOut::BoolValue(Some(v))),
                    ),
                    Err(f) => f == Fault::Rejected(Op::GetBooleanOption) && final(self).log()
                        == old(self).log().push(
                        ev(RawCall::GetConfigOptionBool(path@, default), RawOut::BoolValue(None)),
                    ),
                },
                Some(l) => match r {
                    Ok(v) => final(self).log() == old(self).log().push(
                        flag_ev(RawCall::SetConfigOptionLabel(path@, l@), true),
                    ).push(
                        ev(RawCall::GetConfigOptionBool(path@, default), RawOut::BoolValue(Some(v))),
                    ),
                    Err(f) => {
                        ||| (f == Fault::Rejected(Op::SetConfigOptionLabel) && final(self).log()
                            == old(self).log().push(
                            flag_ev(RawCall::SetConfigOptionLabel(path@, l@), false),
                        ))
                        ||| (f == Fault::Rejected(Op::GetBooleanOption) && final(self).log()
                            == old(self).log().push(
                            flag_ev(RawCall::SetConfigOptionLabel(path@, l@), true),
                        ).push(
                            ev(RawCall::GetConfigOptionBool(path@, default), RawOut::BoolValue(None)),
                        ))
                    },
                },
            }),
    {
        match self.apply_label(path, label) {
            Err(f) => Err(f),
            Ok(_) => match self.port.get_config_option_bool(path, default) {
                Some(v) => Ok(v),
                None => Err(Fault::Rejected(Op::GetBooleanOption)),
            },
        }
    }

    /// Reads a user-configurable color option; each channel of the default
    /// is supplied independently.  Path, label and fault behavior as in
    /// [`Sdk::get_boolean_option`].
    pub fn get_color_option(
        &mut self,
        path: &str,
        default: (i32, i32, i32),
        label: Option<&str>,
    ) -> (r: Result<(i32, i32, i32), Fault>)
        ensures
            (match label {
                None => match r {
                    Ok(v) => final(self).log() == old(self).log().push(
                        ev(
                            RawCall::GetConfigOptionColor(path@, default.0, default.1, default.2),
                            RawOut::ColorValue(Some(v)),
                        ),
                    ),
                    Err(f) => f == Fault::Rejected(Op::GetColorOption) && final(self).log() == old(
                        self,
                    ).log().push(
                        ev(
                            RawCall::GetConfigOptionColor(path@, default.0, default.1, default.2),
                            RawOut::ColorValue(None),
                        ),
                    ),
                },
                Some(l) => match r {
                    Ok(v) => final(self).log() == old(self).log().push(
                        flag_ev(RawCall::SetConfigOptionLabel(path@, l@), true),
                    ).push(
                        ev(
                            RawCall::GetConfigOptionColor(path@, default.0, default.1, default.2),
                            RawOut::ColorValue(Some(v)),
                        ),
                    ),
                    Err(f) => {
                        ||| (f == Fault::Rejected(Op::SetConfigOptionLabel) && final(self).log()
                            == old(self).log().push(
                            flag_ev(RawCall::SetConfigOptionLabel(path@, l@), false),
                        ))
                        ||| (f == Fault::Rejected(Op::GetColorOption) && final(self).log() == old(
                            self,
                        ).log().push(
                            flag_ev(RawCall::SetConfigOptionLabel(path@, l@), true),
                        ).push(
                            ev(
                                RawCall::GetConfigOptionColor(
                                    path@,
                                    default.0,
                                    default.1,
                                    default.2,
                                ),
                                RawOut::ColorValue(None),
                            ),
                        ))
                    },
                },
            }),
    {
        match self.apply_label(path, label) {
            Err(f) => Err(f),
            Ok(_) => match self.port.get_config_option_color(path, default.0, default.1, default.2) {
                Some(v) => Ok(v),
                None => Err(Fault::Rejected(Op::GetColorOption)),
            },
        }
    }

    /// Reads a user-configurable integer option with inclusive bounds; the
    /// collaborator, not this wrapper, is responsible for keeping the value
    /// inside them, and the value is handed back exactly as reported,
    /// never re-clamped here.  Path, label and fault behavior as in
    /// [`Sdk::get_boolean_option`].
    pub fn get_range_option(
        &mut self,
        path: &str,
        default: i32,
        min: i32,
        max: i32,
        label: Option<&str>,
    ) -> (r: Result<i32, Fault>)
        ensures
            (match label {
                None => match r {
                    Ok(v) => final(self).log() == old(self).log().push(
                        ev(
                            RawCall::GetConfigOptionRange(path@, default, min, max),
                            RawOut::RangeValue(Some(v)),
                        ),
                    ),
                    Err(f) => f == Fault::Rejected(Op::GetRangeOption) && final(self).log() == old(
                        self,
                    ).log().push(
                        ev(
                            RawCall::GetConfigOptionRange(path@, default, min, max),
                            RawOut::RangeValue(None),
                        ),
                    ),
                },
                Some(l) => match r {
                    Ok(v) => final(self).log() == old(self).log().push(
                        flag_ev(RawCall::SetConfigOptionLabel(path@, l@), true),
                    ).push(
                        ev(
                            RawCall::GetConfigOptionRange(path@, default, min, max),
                            RawOut::RangeValue(Some(v)),
                        ),
                    ),
                    Err(f) => {
                        ||| (f == Fault::Rejected(Op::SetConfigOptionLabel) && final(self).log()
                            == old(self).log().push(
                            flag_ev(RawCall::SetConfigOptionLabel(path@, l@), false),
                        ))
                        ||| (f == Fault::Rejected(Op::GetRangeOption) && final(self).log() == old(
                            self,
                        ).log().push(
                            flag_ev(RawCall::SetConfigOptionLabel(path@, l@), true),
                        ).push(
                            ev(
                                RawCall::GetConfigOptionRange(path@, default, min, max),
                                RawOut::RangeValue(None),
                            ),
                        ))
                    },
                },
            }),
    {
        match self.apply_label(path, label) {
            Err(f) => Err(f),
            Ok(_) => match self.port.get_config_option_range(path, default, min, max) {
                Some(v) => Ok(v),
                None => Err(Fault::Rejected(Op::GetRangeOption)),
            },
        }
    }

    /// Reads a user-configurable rectangle option as x, y, width and
    /// height.  Path, label and fault behavior as in
    /// [`Sdk::get_boolean_option`].
    pub fn get_rect_option(
        &mut self,
        path: &str,
        default: (i32, i32, i32, i32),
        label: Option<&str>,
    ) -> (r: Result<(i32, i32, i32, i32), Fault>)
        ensures
            (match label {
                None => match r {
                    Ok(v) => final(self).log() == old(self).log().push(
                        ev(
                            RawCall::GetConfigOptionRect(
                                path@,
                                default.0,
                                default.1,
                                default.2,
                                default.3,
                            ),
                            RawOut::RectValue(Some(v)),
                        ),
                    ),
                    Err(f) => f == Fault::Rejected(Op::GetRectOption) && final(self).log() == old(
                        self,
                    ).log().push(
                        ev(
                            RawCall::GetConfigOptionRect(
                                path@,
                                default.0,
                                default.1,
                                default.2,
                                default.3,
                            ),
                            RawOut::RectValue(None),
                        ),
                    ),
                },
                Some(l) => match r {
                    Ok(v) => final(self).log() == old(self).log().push(
                        flag_ev(RawCall::SetConfigOptionLabel(path@, l@), true),
                    ).push(
                        ev(
                            RawCall::GetConfigOptionRect(
                                path@,
                                default.0,
                                default.1,
                                default.2,
                                default.3,
                            ),
                            RawOut::RectValue(Some(v)),
                        ),
                    ),
                    Err(f) => {
                        ||| (f == Fault::Rejected(Op::SetConfigOptionLabel) && final(self).log()
                            == old(self).log().push(
                            flag_ev(RawCall::SetConfigOptionLabel(path@, l@), false),
                        ))
                        ||| (f == Fault::Rejected(Op::GetRectOption) && final(self).log() == old(
                            self,
                        ).log().push(
                            flag_ev(RawCall::SetConfigOptionLabel(path@, l@), true),
                        ).push(
                            ev(
                                RawCall::GetConfigOptionRect(
                                    path@,
                                    default.0,
                                    default.1,
                                    default.2,
                                    default.3,
                                ),
                                RawOut::RectValue(None),
                            ),
                        ))
                    },
                },
            }),
    {
        match self.apply_label(path, label) {
            Err(f) => Err(f),
            Ok(_) => match self.port.get_config_option_rect(
                path,
                default.0,
                default.1,
                default.2,
                default.3,
            ) {
                Some(v) => Ok(v),
                None => Err(Fault::Rejected(Op::GetRectOption)),
            },
        }
    }

    /// Consumes the handle and invokes the collaborator's shutdown, exactly
    /// once; the spent port is handed back.  With the handle gone, no
    /// further operation can be expressed, so a session's shutdown can
    /// never run twice.
    pub fn shutdown(self) -> (p: P)
        ensures
            p.log() == self.log().push(ev(RawCall::Shutdown, RawOut::NoResult)),
            shutdown_count(p.log()) == shutdown_count(self.log()) + 1,
    {
        let ghost pre = self.log();
        let Sdk { port } = self;
        let mut p = port;
        p.shutdown();
        proof {
            lemma_shutdown_adds_one(pre);
        }
        p
    }
}

} // verus!
