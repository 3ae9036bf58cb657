//! A simulated collaborator.
//!
//! [`SimPort`] is a verified, in-memory stand-in for the vendor library: it
//! keeps the collaborator's observable state — reachable or not, a live
//! instance or not — answers each raw call the way the vendor documents it,
//! and records the order of the calls in a plain, inspectable trace.  It is
//! the way to exercise the session layer without hardware: flip its public
//! switches to simulate a broken connection, an already-running instance,
//! or rejected calls, and read the trace back afterwards.

use vstd::prelude::*;

use crate::port::ev;
use crate::port::flag_ev;
use crate::port::Event;
use crate::port::RawCall;
use crate::port::RawOut;
use crate::port::SdkPort;

verus! {

/// One entry of the simulator's observable trace: which raw call was made.
/// The full arguments live in the ghost log; the trace keeps the order and
/// identity, which is what a test inspects.
#[derive(Clone, Copy, Debug, PartialEq, Eq, Structural)]
pub enum SimCall {
    Init,
    InitWithName,
    GetSdkVersion,
    SetTargetDevice,
    SetLighting,
    SetLightingForTargetZone,
    SaveCurrentLighting,
    RestoreLighting,
    FlashLighting,
    PulseLighting,
    StopEffects,
    SetLightingFromBitmap,
    ExcludeKeysFromBitmap,
    SetLightingForKeyWithScanCode,
    SetLightingForKeyWithHidCode,
    SetLightingForKeyWithQuartzCode,
    SetLightingForKeyWithKeyName,
    SaveLightingForKey,
    RestoreLightingForKey,
    FlashSingleKey,
    PulseSingleKey,
    StopEffectsOnKey,
    Shutdown,
    SetConfigOptionLabel,
    GetConfigOptionBool,
    GetConfigOptionColor,
    GetConfigOptionRange,
    GetConfigOptionRect,
}

/// The simulated collaborator's state.
///
/// `reachable` stands for a working connection; `busy` for another live
/// instance elsewhere, which makes initialization fail; `session_open` is
/// the collaborator's own global initialized flag.  `effects_ok`,
/// `labels_ok` and `config_ok` let a test make one family of calls fail
/// while the rest succeed.  Every raw call appends its identity to `trace`.
pub struct SimPort {
    pub reachable: bool,
    pub busy: bool,
    pub session_open: bool,
    pub effects_ok: bool,
    pub labels_ok: bool,
    pub config_ok: bool,
    pub trace: Vec<SimCall>,
    pub history: Ghost<Seq<Event>>,
}

impl SimPort {
    /// A fresh, reachable collaborator with no live instance and every call
    /// family answering success.
    pub fn new() -> (s: SimPort)
        ensures
            s.log() == Seq::<Event>::empty(),
            s.trace@ == Seq::<SimCall>::empty(),
            s.reachable,
            !s.busy,
            !s.session_open,
            s.effects_ok,
            s.labels_ok,
            s.config_ok,
    {
        SimPort {
            reachable: true,
            busy: false,
            session_open: false,
            effects_ok: true,
            labels_ok: true,
            config_ok: true,
            trace: Vec::new(),
            history: Ghost(Seq::empty()),
        }
    }

    /// Whether an effect or state-setting call succeeds in the current
    /// state: the connection works, an instance is live, and effects are
    /// not set to fail.
    fn effect_ok(&self) -> (ok: bool)
        ensures
            ok == (self.reachable && self.session_open && self.effects_ok),
    {
        self.reachable && self.session_open && self.effects_ok
    }

    /// Whether a configuration read succeeds in the current state.
    fn read_ok(&self) -> (ok: bool)
        ensures
            ok == (self.reachable && self.session_open && self.config_ok),
    {
        self.reachable && self.session_open && self.config_ok
    }
}

impl SdkPort for SimPort {
    open spec fn log(&self) -> Seq<Event> {
        self.history@
    }

    fn init(&mut self) -> (ok: bool)
        ensures
            final(self).log() == old(self).log().push(flag_ev(RawCall::Init, ok)),
    {
        let ok = self.reachable && !self.busy && !self.session_open;
        if ok {
            self.session_open = true;
        }
        self.trace.push(SimCall::Init);
        proof {
            self.history@ = self.history@.push(flag_ev(RawCall::Init, ok));
        }
        ok
    }

    fn init_with_name(&mut self, name: &str) -> (ok: bool)
        ensures
            final(self).log() == old(self).log().push(
                flag_ev(RawCall::InitWithName(name@), ok),
            ),
    {
        let ok = self.reachable && !self.busy && !self.session_open;
        if ok {
            self.session_open = true;
        }
        self.trace.push(SimCall::InitWithName);
        proof {
            self.history@ = self.history@.push(flag_ev(RawCall::InitWithName(name@), ok));
        }
        ok
    }

    fn get_sdk_version(&mut self) -> (r: Option<(i32, i32, i32)>)
        ensures
            final(self).log() == old(self).log().push(
                ev(RawCall::GetSdkVersion, RawOut::Version(r)),
            ),
    {
        let r = if self.read_ok() {
            Some((9, 0, 0))
        } else {
            None
        };
        self.trace.push(SimCall::GetSdkVersion);
        proof {
            self.history@ = self.history@.push(ev(RawCall::GetSdkVersion, RawOut::Version(r)));
        }
        r
    }

    fn set_target_device(&mut self, target_device: i32) -> (ok: bool)
        ensures
            final(self).log() == old(self).log().push(
                flag_ev(RawCall::SetTargetDevice(target_device), ok),
            ),
    {
        let ok = self.effect_ok();
        self.trace.push(SimCall::SetTargetDevice);
        proof {
            self.history@ = self.history@.push(flag_ev(RawCall::SetTargetDevice(target_device), ok));
        }
        ok
    }

    fn set_lighting(&mut self, red: i32, green: i32, blue: i32) -> (ok: bool)
        ensures
            final(self).log() == old(self).log().push(
                flag_ev(RawCall::SetLighting(red, green, blue), ok),
            ),
    {
        let ok = self.effect_ok();
        self.trace.push(SimCall::SetLighting);
        proof {
            self.history@ = self.history@.push(flag_ev(RawCall::SetLighting(red, green, blue), ok));
        }
        ok
    }

    fn set_lighting_for_target_zone(
        &mut self,
        device_type: i32,
        zone: i32,
        red: i32,
        green: i32,
        blue: i32,
    ) -> (ok: bool)
        ensures
            final(self).log() == old(self).log().push(
                flag_ev(RawCall::SetLightingForTargetZone(device_type, zone, red, green, blue), ok),
            ),
    {
        let ok = self.effect_ok();
        self.trace.push(SimCall::SetLightingForTargetZone);
        proof {
            self.history@ = self.history@.push(
                flag_ev(RawCall::SetLightingForTargetZone(device_type, zone, red, green, blue), ok),
            );
        }
        ok
    }

    fn save_current_lighting(&mut self) -> (ok: bool)
        ensures
            final(self).log() == old(self).log().push(flag_ev(RawCall::SaveCurrentLighting, ok)),
    {
        let ok = self.effect_ok();
        self.trace.push(SimCall::SaveCurrentLighting);
        proof {
            self.history@ = self.history@.push(flag_ev(RawCall::SaveCurrentLighting, ok));
        }
        ok
    }

    fn restore_lighting(&mut self) -> (ok: bool)
        ensures
            final(self).log() == old(self).log().push(flag_ev(RawCall::RestoreLighting, ok)),
    {
        let ok = self.effect_ok();
        self.trace.push(SimCall::RestoreLighting);
        proof {
            self.history@ = self.history@.push(flag_ev(RawCall::RestoreLighting, ok));
        }
        ok
    }

    fn flash_lighting(
        &mut self,
        red: i32,
        green: i32,
        blue: i32,
        duration_ms: i32,
        interval_ms: i32,
    ) -> (ok: bool)
        ensures
            final(self).log() == old(self).log().push(
                flag_ev(RawCall::FlashLighting(red, green, blue, duration_ms, interval_ms), ok),
            ),
    {
        let ok = self.effect_ok();
        self.trace.push(SimCall::FlashLighting);
        proof {
            self.history@ = self.history@.push(
                flag_ev(RawCall::FlashLighting(red, green, blue, duration_ms, interval_ms), ok),
            );
        }
        ok
    }

    fn pulse_lighting(
        &mut self,
        red: i32,
        green: i32,
        blue: i32,
        duration_ms: i32,
        interval_ms: i32,
    ) -> (ok: bool)
        ensures
            final(self).log() == old(self).log().push(
                flag_ev(RawCall::PulseLighting(red, green, blue, duration_ms, interval_ms), ok),
            ),
    {
        let ok = self.effect_ok();
        self.trace.push(SimCall::PulseLighting);
        proof {
            self.history@ = self.history@.push(
                flag_ev(RawCall::PulseLighting(red, green, blue, duration_ms, interval_ms), ok),
            );
        }
        ok
    }

    fn stop_effects(&mut self) -> (ok: bool)
        ensures
            final(self).log() == old(self).log().push(flag_ev(RawCall::StopEffects, ok)),
    {
        let ok = self.effect_ok();
        self.trace.push(SimCall::StopEffects);
        proof {
            self.history@ = self.history@.push(flag_ev(RawCall::StopEffects, ok));
        }
        ok
    }

    fn set_lighting_from_bitmap(&mut self, bitmap: &Vec<u8>) -> (ok: bool)
        ensures
            final(self).log() == old(self).log().push(
                flag_ev(RawCall::SetLightingFromBitmap(bitmap@), ok),
            ),
    {
        let ok = self.effect_ok();
        self.trace.push(SimCall::SetLightingFromBitmap);
        proof {
            self.history@ = self.history@.push(flag_ev(RawCall::SetLightingFromBitmap(bitmap@), ok));
        }
        ok
    }

    fn exclude_keys_from_bitmap(&mut self, codes: &Vec<i32>) -> (ok: bool)
        ensures
            final(self).log() == old(self).log().push(
                flag_ev(RawCall::ExcludeKeysFromBitmap(codes@), ok),
            ),
    {
        let ok = self.effect_ok();
        self.trace.push(SimCall::ExcludeKeysFromBitmap);
        proof {
            self.history@ = self.history@.push(flag_ev(RawCall::ExcludeKeysFromBitmap(codes@), ok));
        }
        ok
    }

    fn set_lighting_for_key_with_scan_code(
        &mut self,
        code: i32,
        red: i32,
        green: i32,
        blue: i32,
    ) -> (ok: bool)
        ensures
            final(self).log() == old(self).log().push(
                flag_ev(RawCall::SetLightingForKeyWithScanCode(code, red, green, blue), ok),
            ),
    {
        let ok = self.effect_ok();
        self.trace.push(SimCall::SetLightingForKeyWithScanCode);
        proof {
            self.history@ = self.history@.push(
                flag_ev(RawCall::SetLightingForKeyWithScanCode(code, red, green, blue), ok),
            );
        }
        ok
    }

    fn set_lighting_for_key_with_hid_code(
        &mut self,
        code: i32,
        red: i32,
        green: i32,
        blue: i32,
    ) -> (ok: bool)
        ensures
            final(self).log() == old(self).log().push(
                flag_ev(RawCall::SetLightingForKeyWithHidCode(code, red, green, blue), ok),
            ),
    {
        let ok = self.effect_ok();
        self.trace.push(SimCall::SetLightingForKeyWithHidCode);
        proof {
            self.history@ = self.history@.push(
                flag_ev(RawCall::SetLightingForKeyWithHidCode(code, red, green, blue), ok),
            );
        }
        ok
    }

    fn set_lighting_for_key_with_quartz_code(
        &mut self,
        code: i32,
        red: i32,
        green: i32,
        blue: i32,
    ) -> (ok: bool)
        ensures
            final(self).log() == old(self).log().push(
                flag_ev(RawCall::SetLightingForKeyWithQuartzCode(code, red, green, blue), ok),
            ),
    {
        let ok = self.effect_ok();
        self.trace.push(SimCall::SetLightingForKeyWithQuartzCode);
        proof {
            self.history@ = self.history@.push(
                flag_ev(RawCall::SetLightingForKeyWithQuartzCode(code, red, green, blue), ok),
            );
        }
        ok
    }

    fn set_lighting_for_key_with_key_name(
        &mut self,
        code: i32,
        red: i32,
        green: i32,
        blue: i32,
    ) -> (ok: bool)
        ensures
            final(self).log() == old(self).log().push(
                flag_ev(RawCall::SetLightingForKeyWithKeyName(code, red, green, blue), ok),
            ),
    {
        let ok = self.effect_ok();
        self.trace.push(SimCall::SetLightingForKeyWithKeyName);
        proof {
            self.history@ = self.history@.push(
                flag_ev(RawCall::SetLightingForKeyWithKeyName(code, red, green, blue), ok),
            );
        }
        ok
    }

    fn save_lighting_for_key(&mut self, code: i32) -> (ok: bool)
        ensures
            final(self).log() == old(self).log().push(
                flag_ev(RawCall::SaveLightingForKey(code), ok),
            ),
    {
        let ok = self.effect_ok();
        self.trace.push(SimCall::SaveLightingForKey);
        proof {
            self.history@ = self.history@.push(flag_ev(RawCall::SaveLightingForKey(code), ok));
        }
        ok
    }

    fn restore_lighting_for_key(&mut self, code: i32) -> (ok: bool)
        ensures
            final(self).log() == old(self).log().push(
                flag_ev(RawCall::RestoreLightingForKey(code), ok),
            ),
    {
        let ok = self.effect_ok();
        self.trace.push(SimCall::RestoreLightingForKey);
        proof {
            self.history@ = self.history@.push(flag_ev(RawCall::RestoreLightingForKey(code), ok));
        }
        ok
    }

    fn flash_single_key(
        &mut self,
        code: i32,
        red: i32,
        green: i32,
        blue: i32,
        duration_ms: i32,
        interval_ms: i32,
    ) -> (ok: bool)
        ensures
            final(self).log() == old(self).log().push(
                flag_ev(
                    RawCall::FlashSingleKey(code, red, green, blue, duration_ms, interval_ms),
                    ok,
                ),
            ),
    {
        let ok = self.effect_ok();
        self.trace.push(SimCall::FlashSingleKey);
        proof {
            self.history@ = self.history@.push(
                flag_ev(
                    RawCall::FlashSingleKey(code, red, green, blue, duration_ms, interval_ms),
                    ok,
                ),
            );
        }
        ok
    }

    fn pulse_single_key(
        &mut self,
        code: i32,
        start_red: i32,
        start_green: i32,
        start_blue: i32,
        end_red: i32,
        end_green: i32,
        end_blue: i32,
        duration_ms: i32,
        infinite: bool,
    ) -> (ok: bool)
        ensures
            final(self).log() == old(self).log().push(
                flag_ev(
                    RawCall::PulseSingleKey(
                        code,
                        start_red,
                        start_green,
                        start_blue,
                        end_red,
                        end_green,
                        end_blue,
                        duration_ms,
                        infinite,
                    ),
                    ok,
                ),
            ),
    {
        let ok = self.effect_ok();
        self.trace.push(SimCall::PulseSingleKey);
        proof {
            self.history@ = self.history@.push(
                flag_ev(
                    RawCall::PulseSingleKey(
                        code,
                        start_red,
                        start_green,
                        start_blue,
                        end_red,
                        end_green,
                        end_blue,
                        duration_ms,
                        infinite,
                    ),
                    ok,
                ),
            );
        }
        ok
    }

    fn stop_effects_on_key(&mut self, code: i32) -> (ok: bool)
        ensures
            final(self).log() == old(self).log().push(
                flag_ev(RawCall::StopEffectsOnKey(code), ok),
            ),
    {
        let ok = self.effect_ok();
        self.trace.push(SimCall::StopEffectsOnKey);
        proof {
            self.history@ = self.history@.push(flag_ev(RawCall::StopEffectsOnKey(code), ok));
        }
        ok
    }

    fn shutdown(&mut self)
        ensures
            final(self).log() == old(self).log().push(ev(RawCall::Shutdown, RawOut::NoResult)),
    {
        self.session_open = false;
        self.trace.push(SimCall::Shutdown);
        proof {
            self.history@ = self.history@.push(ev(RawCall::Shutdown, RawOut::NoResult));
        }
    }

    fn set_config_option_label(&mut self, path: &str, label: &str) -> (ok: bool)
        ensures
            final(self).log() == old(self).log().push(
                flag_ev(RawCall::SetConfigOptionLabel(path@, label@), ok),
            ),
    {
        let ok = self.reachable && self.session_open && self.labels_ok;
        self.trace.push(SimCall::SetConfigOptionLabel);
        proof {
            self.history@ = self.history@.push(
                flag_ev(RawCall::SetConfigOptionLabel(path@, label@), ok),
            );
        }
        ok
    }

    fn get_config_option_bool(&mut self, path: &str, default: bool) -> (r: Option<bool>)
        ensures
            final(self).log() == old(self).log().push(
                ev(RawCall::GetConfigOptionBool(path@, default), RawOut::BoolValue(r)),
            ),
    {
        let r = if self.read_ok() {
            Some(default)
        } else {
            None
        };
        self.trace.push(SimCall::GetConfigOptionBool);
        proof {
            self.history@ = self.history@.push(
                ev(RawCall::GetConfigOptionBool(path@, default), RawOut::BoolValue(r)),
            );
        }
        r
    }

    fn get_config_option_color(
        &mut self,
        path: &str,
        default_red: i32,
        default_green: i32,
        default_blue: i32,
    ) -> (r: Option<(i32, i32, i32)>)
        ensures
            final(self).log() == old(self).log().push(
                ev(
                    RawCall::GetConfigOptionColor(path@, default_red, default_green, default_blue),
                    RawOut::ColorValue(r),
                ),
            ),
    {
        let r = if self.read_ok() {
            Some((default_red, default_green, default_blue))
        } else {
            None
        };
        self.trace.push(SimCall::GetConfigOptionColor);
        proof {
            self.history@ = self.history@.push(
                ev(
                    RawCall::GetConfigOptionColor(path@, default_red, default_green, default_blue),
                    RawOut::ColorValue(r),
                ),
            );
        }
        r
    }

    fn get_config_option_range(&mut self, path: &str, default: i32, min: i32, max: i32) -> (r:
        Option<i32>)
        ensures
            final(self).log() == old(self).log().push(
                ev(RawCall::GetConfigOptionRange(path@, default, min, max), RawOut::RangeValue(r)),
            ),
    {
        let r = if self.read_ok() {
            Some(default)
        } else {
            None
        };
        self.trace.push(SimCall::GetConfigOptionRange);
        proof {
            self.history@ = self.history@.push(
                ev(RawCall::GetConfigOptionRange(path@, default, min, max), RawOut::RangeValue(r)),
            );
        }
        r
    }

    fn get_config_option_rect(
        &mut self,
        path: &str,
        default_x: i32,
        default_y: i32,
        default_width: i32,
        default_height: i32,
    ) -> (r: Option<(i32, i32, i32, i32)>)
        ensures
            final(self).log() == old(self).log().push(
                ev(
                    RawCall::GetConfigOptionRect(
                        path@,
                        default_x,
                        default_y,
                        default_width,
                        default_height,
                    ),
                    RawOut::RectValue(r),
                ),
            ),
    {
        let r = if self.read_ok() {
            Some((default_x, default_y, default_width, default_height))
        } else {
            None
        };
        self.trace.push(SimCall::GetConfigOptionRect);
        proof {
            self.history@ = self.history@.push(
                ev(
                    RawCall::GetConfigOptionRect(
                        path@,
                        default_x,
                        default_y,
                        default_width,
                        default_height,
                    ),
                    RawOut::RectValue(r),
                ),
            );
        }
        r
    }
}

} // verus!
