use lightsync::init;
use lightsync::sim::SimCall;
use lightsync::Color;
use lightsync::DeviceType;
use lightsync::Fault;
use lightsync::Key;
use lightsync::Op;
use lightsync::Sdk;
use lightsync::SimPort;

fn open(sim: SimPort) -> Sdk<SimPort> {
    match Sdk::init(sim) {
        Ok(sdk) => sdk,
        Err(_) => panic!("collaborator refused to initialize"),
    }
}

#[test]
fn opening_while_another_instance_is_live_fails() {
    let mut sim = SimPort::new();
    sim.busy = true;
    let back = match Sdk::init(sim) {
        Ok(_) => panic!("a second live instance must make open fail"),
        Err(p) => p,
    };
    assert_eq!(back.trace, vec![SimCall::Init]);
    assert!(!back.session_open);
}

#[test]
fn opening_with_a_broken_connection_fails() {
    let mut sim = SimPort::new();
    sim.reachable = false;
    assert!(Sdk::init(sim).is_err());
}

#[test]
fn open_then_close_shuts_down_exactly_once() {
    let sdk = open(SimPort::new());
    let spent = sdk.shutdown();
    assert_eq!(spent.trace, vec![SimCall::Init, SimCall::Shutdown]);
    let shutdowns = spent.trace.iter().filter(|c| **c == SimCall::Shutdown).count();
    assert_eq!(shutdowns, 1);
    assert!(!spent.session_open);
}

#[test]
fn close_without_any_effect_still_shuts_down_once() {
    let spent = open(SimPort::new()).shutdown();
    let shutdowns = spent.trace.iter().filter(|c| **c == SimCall::Shutdown).count();
    assert_eq!(shutdowns, 1);
}

#[test]
fn open_set_lighting_close_runs_the_documented_scenario() {
    let sim = SimPort::new();
    let mut sdk = open(sim);
    assert_eq!(sdk.set_lighting(Color::new(100, 0, 0)), Ok(()));
    let spent = sdk.shutdown();
    assert_eq!(
        spent.trace,
        vec![SimCall::Init, SimCall::SetLighting, SimCall::Shutdown]
    );
    let shutdowns = spent.trace.iter().filter(|c| **c == SimCall::Shutdown).count();
    assert_eq!(shutdowns, 1);
}

#[test]
fn named_open_registers_through_the_named_call() {
    let sim = SimPort::new();
    let sdk = match Sdk::init_with_name(sim, "integration") {
        Ok(sdk) => sdk,
        Err(_) => panic!("collaborator refused to initialize"),
    };
    let spent = sdk.shutdown();
    assert_eq!(spent.trace, vec![SimCall::InitWithName, SimCall::Shutdown]);
}

#[test]
fn free_init_behaves_like_the_method() {
    let sdk = match init(SimPort::new()) {
        Ok(sdk) => sdk,
        Err(_) => panic!("collaborator refused to initialize"),
    };
    let spent = sdk.shutdown();
    assert_eq!(spent.trace, vec![SimCall::Init, SimCall::Shutdown]);
}

#[test]
fn free_init_with_name_behaves_like_the_method() {
    let sdk = match lightsync::init_with_name(SimPort::new(), "integration") {
        Ok(sdk) => sdk,
        Err(_) => panic!("collaborator refused to initialize"),
    };
    let spent = sdk.shutdown();
    assert_eq!(spent.trace, vec![SimCall::InitWithName, SimCall::Shutdown]);
}

#[test]
fn a_rejected_effect_reports_the_operation() {
    let mut sim = SimPort::new();
    sim.effects_ok = false;
    let mut sdk = open(sim);
    assert_eq!(
        sdk.set_lighting(Color::new(0, 100, 0)),
        Err(Fault::Rejected(Op::SetLighting))
    );
    assert_eq!(
        sdk.flash_lighting(Color::new(0, 100, 0), 2000, 500),
        Err(Fault::Rejected(Op::FlashLighting))
    );
    assert_eq!(sdk.stop_effects(), Err(Fault::Rejected(Op::StopEffects)));
}

#[test]
fn every_effect_reaches_its_raw_call_in_order() {
    let mut sdk = open(SimPort::new());
    assert_eq!(sdk.set_target_devices(lightsync::lighting::RGB), Ok(()));
    assert_eq!(sdk.set_lighting(Color::new(1, 2, 3)), Ok(()));
    assert_eq!(
        sdk.set_lighting_for_zone(DeviceType::Mouse, 1, Color::new(0, 100, 0)),
        Ok(())
    );
    assert_eq!(sdk.save_lighting(), Ok(()));
    assert_eq!(sdk.restore_lighting(), Ok(()));
    assert_eq!(sdk.flash_lighting(Color::new(100, 0, 0), 2000, 500), Ok(()));
    assert_eq!(sdk.pulse_lighting(Color::new(100, 0, 0), 0, 300), Ok(()));
    assert_eq!(sdk.stop_effects(), Ok(()));
    let grid = [[[0u8; 4]; 21]; 6];
    assert_eq!(sdk.set_lighting_from_bitmap(&grid), Ok(()));
    assert_eq!(sdk.exclude_keys_from_bitmap(&[Key::W, Key::A, Key::S, Key::D]), Ok(()));
    assert_eq!(sdk.set_lighting_for_key(Key::J, Color::new(100, 0, 0)), Ok(()));
    assert_eq!(sdk.save_lighting_for_key(Key::M), Ok(()));
    assert_eq!(sdk.restore_lighting_for_key(Key::M), Ok(()));
    assert_eq!(sdk.flash_key(Key::H, Color::new(100, 0, 0), 2000, 500), Ok(()));
    assert_eq!(
        sdk.pulse_key(Key::H, Color::new(100, 0, 0), Color::new(0, 100, 0), 2000, false),
        Ok(())
    );
    assert_eq!(sdk.stop_effects_on_key(Key::H), Ok(()));
    assert_eq!(
        sdk.set_lighting_for_key_with_scan_code(0x10, Color::new(1, 1, 1)),
        Ok(())
    );
    assert_eq!(
        sdk.set_lighting_for_key_with_hid_code(0x14, Color::new(2, 2, 2)),
        Ok(())
    );
    assert_eq!(
        sdk.set_lighting_for_key_with_quartz_code(0x0c, Color::new(3, 3, 3)),
        Ok(())
    );
    let spent = sdk.shutdown();
    assert_eq!(
        spent.trace,
        vec![
            SimCall::Init,
            SimCall::SetTargetDevice,
            SimCall::SetLighting,
            SimCall::SetLightingForTargetZone,
            SimCall::SaveCurrentLighting,
            SimCall::RestoreLighting,
            SimCall::FlashLighting,
            SimCall::PulseLighting,
            SimCall::StopEffects,
            SimCall::SetLightingFromBitmap,
            SimCall::ExcludeKeysFromBitmap,
            SimCall::SetLightingForKeyWithKeyName,
            SimCall::SaveLightingForKey,
            SimCall::RestoreLightingForKey,
            SimCall::FlashSingleKey,
            SimCall::PulseSingleKey,
            SimCall::StopEffectsOnKey,
            SimCall::SetLightingForKeyWithScanCode,
            SimCall::SetLightingForKeyWithHidCode,
            SimCall::SetLightingForKeyWithQuartzCode,
            SimCall::Shutdown,
        ]
    );
}

#[test]
fn version_reports_what_the_collaborator_answered() {
    let mut sdk = open(SimPort::new());
    assert_eq!(sdk.version(), Ok((9, 0, 0)));
    let mut sim = SimPort::new();
    sim.config_ok = false;
    let mut sdk = open(sim);
    assert_eq!(sdk.version(), Err(Fault::Rejected(Op::Version)));
}
