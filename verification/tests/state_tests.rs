use network_shim::identity::{
    is_qitech_laser, network_shim_uid, MachineIdentification, MachineIdentificationUnique,
    MACHINE_EXTRUDER_V2, MACHINE_LASER_V1, NETWORK_SHIM_SERIAL, VENDOR_QITECH,
};
use network_shim::mode::{infer_mode_from_cache, mode_from_name, ExtruderV2Mode};
use network_shim::mutation::{classify_mutation, find_field, HeatingZone, JsonKind, Mutation, MutationField};
use network_shim::shim_state::{LaserReferenceError, LaserReferencePlan, ShimState};
use network_shim::timing::{
    elapsed_at_least, sample_due, EmitThrottle, LIVE_VALUES_INTERVAL_NS, PRESSURE_SAMPLE_INTERVAL_NS,
};

fn laser(serial: u16) -> MachineIdentificationUnique {
    MachineIdentificationUnique {
        machine_identification: MachineIdentification { vendor: VENDOR_QITECH, machine: MACHINE_LASER_V1 },
        serial,
    }
}

fn field(key: &str, value: JsonKind) -> MutationField {
    MutationField { key: key.to_string(), value }
}

#[test]
fn shim_identity() {
    let uid = network_shim_uid();
    assert_eq!(uid.serial, 0xB001);
    assert_eq!(uid.serial, NETWORK_SHIM_SERIAL);
    assert_eq!(uid.machine_identification.vendor, VENDOR_QITECH);
    assert_eq!(uid.machine_identification.machine, MACHINE_EXTRUDER_V2);
    assert!(!is_qitech_laser(&uid));
    assert!(is_qitech_laser(&laser(5)));
}

#[test]
fn infer_mode() {
    assert_eq!(infer_mode_from_cache(true, true), ExtruderV2Mode::Extrude);
    assert_eq!(infer_mode_from_cache(true, false), ExtruderV2Mode::Extrude);
    assert_eq!(infer_mode_from_cache(false, true), ExtruderV2Mode::Heat);
    assert_eq!(infer_mode_from_cache(false, false), ExtruderV2Mode::Standby);
}

#[test]
fn mode_names() {
    assert_eq!(mode_from_name("Standby", ExtruderV2Mode::Heat), ExtruderV2Mode::Standby);
    assert_eq!(mode_from_name("Heat", ExtruderV2Mode::Standby), ExtruderV2Mode::Heat);
    assert_eq!(mode_from_name("Extrude", ExtruderV2Mode::Standby), ExtruderV2Mode::Extrude);
    assert_eq!(mode_from_name("extrude", ExtruderV2Mode::Heat), ExtruderV2Mode::Heat);
    assert_eq!(mode_from_name("", ExtruderV2Mode::Extrude), ExtruderV2Mode::Extrude);
}

#[test]
fn initial_state() {
    let s = ShimState::new();
    assert_eq!(s.mode, ExtruderV2Mode::Standby);
    assert!(s.uses_rpm);
    assert_eq!(s.laser_reference_machine, None);
    assert!(!s.laser_in_tolerance);
    assert!(!s.emitted_default_state);
    assert!(!s.inverter_running());
    assert!(!s.pressure_regulation_selected());
}

#[test]
fn default_state_once_per_subscription() {
    let mut s = ShimState::new();
    assert!(s.take_is_default_state());
    assert!(!s.take_is_default_state());
    s.subscribe_namespace();
    assert!(s.take_is_default_state());
    assert!(!s.take_is_default_state());
}

#[test]
fn auto_detect_leaves_standby_only() {
    let mut s = ShimState::new();
    assert!(!s.auto_detect_mode(false, false));
    assert_eq!(s.mode, ExtruderV2Mode::Standby);
    assert!(s.auto_detect_mode(false, true));
    assert_eq!(s.mode, ExtruderV2Mode::Heat);
    assert!(!s.auto_detect_mode(true, true));
    assert_eq!(s.mode, ExtruderV2Mode::Heat);
    let mut t = ShimState::new();
    assert!(t.auto_detect_mode(true, false));
    assert_eq!(t.mode, ExtruderV2Mode::Extrude);
    assert!(t.inverter_running());
}

#[test]
fn regulation_selection() {
    let mut s = ShimState::new();
    s.mode = ExtruderV2Mode::Extrude;
    assert!(!s.pressure_regulation_selected());
    s.uses_rpm = false;
    assert!(s.pressure_regulation_selected());
    s.mode = ExtruderV2Mode::Heat;
    assert!(!s.pressure_regulation_selected());
}

#[test]
fn laser_data() {
    let mut s = ShimState::new();
    s.receive_laser_data(true);
    assert!(s.laser_in_tolerance);
    s.receive_laser_data(false);
    assert!(!s.laser_in_tolerance);
}

#[test]
fn plan_refuses_non_laser() {
    let s = ShimState::new();
    let err = s.plan_laser_reference(Some(network_shim_uid()), true).unwrap_err();
    assert_eq!(err, LaserReferenceError::NotQitechLaser);
    assert_eq!(err.message(), "Pressure control reference must be a QiTech laser machine");
    let other_vendor = MachineIdentificationUnique {
        machine_identification: MachineIdentification { vendor: 0x0002, machine: MACHINE_LASER_V1 },
        serial: 1,
    };
    assert_eq!(s.plan_laser_reference(Some(other_vendor), false), Err(LaserReferenceError::NotQitechLaser));
}

#[test]
fn plan_same_reference_is_nothing() {
    let mut s = ShimState::new();
    assert_eq!(s.plan_laser_reference(None, true), Ok(LaserReferencePlan::Unchanged));
    s.commit_laser_reference(Some(laser(3)));
    assert_eq!(s.plan_laser_reference(Some(laser(3)), true), Ok(LaserReferencePlan::Unchanged));
}

#[test]
fn plan_change_swaps_subscriptions() {
    let mut s = ShimState::new();
    s.commit_laser_reference(Some(laser(3)));
    assert_eq!(
        s.plan_laser_reference(Some(laser(4)), true),
        Ok(LaserReferencePlan::Change { unsubscribe: Some(laser(3)), subscribe: Some(laser(4)) })
    );
    assert_eq!(
        s.plan_laser_reference(None, true),
        Ok(LaserReferencePlan::Change { unsubscribe: Some(laser(3)), subscribe: None })
    );
    assert_eq!(
        s.plan_laser_reference(Some(laser(4)), false),
        Ok(LaserReferencePlan::Change { unsubscribe: None, subscribe: None })
    );
}

#[test]
fn commit_clears_tolerance() {
    let mut s = ShimState::new();
    s.receive_laser_data(true);
    s.commit_laser_reference(Some(laser(9)));
    assert_eq!(s.laser_reference_machine, Some(laser(9)));
    assert!(!s.laser_in_tolerance);
}

#[test]
fn subscription_round_trip() {
    let mut s = ShimState::new();
    s.subscribed_to_machine(laser(1));
    assert_eq!(s.laser_reference_machine, Some(laser(1)));
    s.receive_laser_data(true);
    assert!(!s.unsubscribed_from_machine(laser(2)));
    assert_eq!(s.laser_reference_machine, Some(laser(1)));
    assert!(s.laser_in_tolerance);
    assert!(s.unsubscribed_from_machine(laser(1)));
    assert_eq!(s.laser_reference_machine, None);
    assert!(!s.laser_in_tolerance);
    assert!(!s.unsubscribed_from_machine(laser(1)));
}

#[test]
fn find_first_field() {
    let f = vec![field("a", JsonKind::Null), field("b", JsonKind::Number), field("a", JsonKind::Array)];
    assert_eq!(find_field(&f, "a"), Some(0));
    assert_eq!(find_field(&f, "b"), Some(1));
    assert_eq!(find_field(&f, "c"), None);
}

#[test]
fn classify_mode_requests() {
    let f = vec![field("SetExtruderMode", JsonKind::Str("Extrude".to_string()))];
    assert_eq!(classify_mutation(&f, ExtruderV2Mode::Standby), Mutation::ExtruderMode(ExtruderV2Mode::Extrude));
    let unknown = vec![field("SetExtruderMode", JsonKind::Str("Turbo".to_string()))];
    assert_eq!(classify_mutation(&unknown, ExtruderV2Mode::Heat), Mutation::ExtruderMode(ExtruderV2Mode::Heat));
    let wrong = vec![field("SetExtruderMode", JsonKind::Number)];
    assert_eq!(classify_mutation(&wrong, ExtruderV2Mode::Heat), Mutation::Unrecognized);
}

#[test]
fn classify_numeric_requests() {
    let f = vec![field("x", JsonKind::Null), field("SetInverterTargetRpm", JsonKind::Number)];
    assert_eq!(classify_mutation(&f, ExtruderV2Mode::Standby), Mutation::TargetRpm(1));
    let f = vec![field("SetInverterTargetPressure", JsonKind::Number)];
    assert_eq!(classify_mutation(&f, ExtruderV2Mode::Standby), Mutation::TargetPressure(0));
    let f = vec![field("SetPressureControlStartTolerance", JsonKind::Number)];
    assert_eq!(classify_mutation(&f, ExtruderV2Mode::Standby), Mutation::StartTolerance(0));
    let f = vec![field("SetInverterTargetRpm", JsonKind::Str("5".to_string()))];
    assert_eq!(classify_mutation(&f, ExtruderV2Mode::Standby), Mutation::Unrecognized);
}

#[test]
fn classify_regulation_and_reference() {
    let f = vec![field("SetInverterRegulation", JsonKind::Bool(false))];
    assert_eq!(classify_mutation(&f, ExtruderV2Mode::Standby), Mutation::Regulation(false));
    let f = vec![field("SetInverterRegulation", JsonKind::Null)];
    assert_eq!(classify_mutation(&f, ExtruderV2Mode::Standby), Mutation::Unrecognized);
    let f = vec![field("SetPressureControlLaserReference", JsonKind::Null)];
    assert_eq!(classify_mutation(&f, ExtruderV2Mode::Standby), Mutation::LaserReference(0));
}

#[test]
fn classify_heating_requests() {
    let cases = [
        ("SetFrontHeatingTargetTemperature", HeatingZone::Front),
        ("SetMiddleHeatingTemperature", HeatingZone::Middle),
        ("SetMiddleHeatingTargetTemperature", HeatingZone::Middle),
        ("SetBackHeatingTargetTemperature", HeatingZone::Back),
        ("SetNozzleHeatingTemperature", HeatingZone::Nozzle),
        ("SetNozzleHeatingTargetTemperature", HeatingZone::Nozzle),
    ];
    for (key, zone) in cases {
        let f = vec![field(key, JsonKind::Number)];
        assert_eq!(classify_mutation(&f, ExtruderV2Mode::Standby), Mutation::HeatingTarget(zone, 0));
    }
    // The short spelling wins over the long one, even where its value is no number.
    let f = vec![
        field("SetMiddleHeatingTargetTemperature", JsonKind::Number),
        field("SetMiddleHeatingTemperature", JsonKind::Null),
    ];
    assert_eq!(classify_mutation(&f, ExtruderV2Mode::Standby), Mutation::Unrecognized);
    let f = vec![
        field("SetNozzleHeatingTargetTemperature", JsonKind::Number),
        field("SetNozzleHeatingTemperature", JsonKind::Number),
    ];
    assert_eq!(classify_mutation(&f, ExtruderV2Mode::Standby), Mutation::HeatingTarget(HeatingZone::Nozzle, 1));
}

#[test]
fn classify_priority_order() {
    // A mode request wins over every other command, even where its value has the wrong kind.
    let f = vec![
        field("SetInverterTargetRpm", JsonKind::Number),
        field("SetExtruderMode", JsonKind::Bool(true)),
    ];
    assert_eq!(classify_mutation(&f, ExtruderV2Mode::Standby), Mutation::Unrecognized);
    let f = vec![
        field("SetBackHeatingTargetTemperature", JsonKind::Number),
        field("SetInverterTargetPressure", JsonKind::Number),
    ];
    assert_eq!(classify_mutation(&f, ExtruderV2Mode::Standby), Mutation::TargetPressure(1));
    let f = vec![field("Unrelated", JsonKind::Object)];
    assert_eq!(classify_mutation(&f, ExtruderV2Mode::Standby), Mutation::Unrecognized);
    let f: Vec<MutationField> = vec![];
    assert_eq!(classify_mutation(&f, ExtruderV2Mode::Standby), Mutation::Unrecognized);
}

#[test]
fn apply_mutation_updates_state() {
    let mut s = ShimState::new();
    let f = vec![field("SetExtruderMode", JsonKind::Str("Extrude".to_string()))];
    assert_eq!(s.apply_mutation(&f), Mutation::ExtruderMode(ExtruderV2Mode::Extrude));
    assert_eq!(s.mode, ExtruderV2Mode::Extrude);
    let f = vec![field("SetInverterRegulation", JsonKind::Bool(false))];
    assert_eq!(s.apply_mutation(&f), Mutation::Regulation(false));
    assert!(!s.uses_rpm);
    assert!(s.pressure_regulation_selected());
    let before = s;
    let f = vec![field("SetInverterTargetRpm", JsonKind::Number)];
    assert_eq!(s.apply_mutation(&f), Mutation::TargetRpm(0));
    assert_eq!(s, before);
}

#[test]
fn elapsed_and_sampling() {
    assert!(elapsed_at_least(10, 20, 10));
    assert!(!elapsed_at_least(10, 19, 10));
    assert!(!elapsed_at_least(30, 20, 1));
    assert!(elapsed_at_least(30, 20, 0));
    assert!(sample_due(None, 0));
    assert!(sample_due(Some(5), 5 + PRESSURE_SAMPLE_INTERVAL_NS));
    assert!(!sample_due(Some(5), 4 + PRESSURE_SAMPLE_INTERVAL_NS));
}

#[test]
fn throttle_paces_events() {
    let mut t = EmitThrottle::new(1_000);
    assert!(!t.poll(1_000 + LIVE_VALUES_INTERVAL_NS - 1));
    assert!(t.poll(1_000 + LIVE_VALUES_INTERVAL_NS));
    assert_eq!(t.last_emit, 1_000 + LIVE_VALUES_INTERVAL_NS);
    assert!(!t.poll(1_000 + 2 * LIVE_VALUES_INTERVAL_NS - 1));
    assert!(t.poll(1_000 + 3 * LIVE_VALUES_INTERVAL_NS));
}
