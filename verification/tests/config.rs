use lightsync::sim::SimCall;
use lightsync::Fault;
use lightsync::Op;
use lightsync::Sdk;
use lightsync::SimPort;

fn open(sim: SimPort) -> Sdk<SimPort> {
    match Sdk::init(sim) {
        Ok(sdk) => sdk,
        Err(_) => panic!("collaborator refused to initialize"),
    }
}

#[test]
fn no_label_means_no_label_call() {
    let mut sdk = open(SimPort::new());
    assert_eq!(sdk.get_boolean_option("Flags/Warning", true, None), Ok(true));
    let spent = sdk.shutdown();
    assert_eq!(
        spent.trace,
        vec![SimCall::Init, SimCall::GetConfigOptionBool, SimCall::Shutdown]
    );
    assert!(!spent.trace.contains(&SimCall::SetConfigOptionLabel));
}

#[test]
fn a_label_is_set_before_the_option_is_read() {
    let mut sdk = open(SimPort::new());
    assert_eq!(
        sdk.get_boolean_option("Flags/Warning", false, Some("Show warnings")),
        Ok(false)
    );
    let spent = sdk.shutdown();
    assert_eq!(
        spent.trace,
        vec![
            SimCall::Init,
            SimCall::SetConfigOptionLabel,
            SimCall::GetConfigOptionBool,
            SimCall::Shutdown,
        ]
    );
}

#[test]
fn ranged_default_comes_back_unclamped_and_unchanged() {
    let mut sdk = open(SimPort::new());
    assert_eq!(sdk.get_range_option("Sliders/Level", 5, 0, 10, None), Ok(5));
}

#[test]
fn color_defaults_echo_back_channel_by_channel() {
    let mut sdk = open(SimPort::new());
    assert_eq!(
        sdk.get_color_option("Colors/Terrorist", (10, 20, 30), None),
        Ok((10, 20, 30))
    );
}

#[test]
fn rect_defaults_echo_back_as_four_integers() {
    let mut sdk = open(SimPort::new());
    assert_eq!(
        sdk.get_rect_option("Layout/Box", (1, 2, 3, 4), Some("Box")),
        Ok((1, 2, 3, 4))
    );
    let spent = sdk.shutdown();
    assert_eq!(
        spent.trace,
        vec![
            SimCall::Init,
            SimCall::SetConfigOptionLabel,
            SimCall::GetConfigOptionRect,
            SimCall::Shutdown,
        ]
    );
}

#[test]
fn a_rejected_label_is_a_hard_fault_and_stops_the_read() {
    let mut sim = SimPort::new();
    sim.labels_ok = false;
    let mut sdk = open(sim);
    assert_eq!(
        sdk.get_boolean_option("bad//path", true, Some("Oops")),
        Err(Fault::Rejected(Op::SetConfigOptionLabel))
    );
    let spent = sdk.shutdown();
    assert_eq!(
        spent.trace,
        vec![SimCall::Init, SimCall::SetConfigOptionLabel, SimCall::Shutdown]
    );
    assert!(!spent.trace.contains(&SimCall::GetConfigOptionBool));
}

#[test]
fn a_rejected_read_names_the_reading_operation() {
    let mut sim = SimPort::new();
    sim.config_ok = false;
    let mut sdk = open(sim);
    assert_eq!(
        sdk.get_boolean_option("Flags/Warning", true, None),
        Err(Fault::Rejected(Op::GetBooleanOption))
    );
    assert_eq!(
        sdk.get_range_option("Sliders/Level", 5, 0, 10, None),
        Err(Fault::Rejected(Op::GetRangeOption))
    );
    assert_eq!(
        sdk.get_color_option("Colors/Terrorist", (0, 0, 0), None),
        Err(Fault::Rejected(Op::GetColorOption))
    );
    assert_eq!(
        sdk.get_rect_option("Layout/Box", (0, 0, 0, 0), None),
        Err(Fault::Rejected(Op::GetRectOption))
    );
}
