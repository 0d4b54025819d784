use slimetora::ble::assignment_from_bytes;
use slimetora::ble::device_connected;
use slimetora::ble::filter_devices;
use slimetora::ble::handle_device_disconnect;
use slimetora::ble::notification_source;
use slimetora::ble::reconnect_targets;
use slimetora::ble::resolve_assignment;
use slimetora::ble::setup_notifications;
use slimetora::ble::scan_finished;
use slimetora::ble::scan_tick;
use slimetora::ble::start_connections;
use slimetora::ble::start_scanning;
use slimetora::ble::stop_connections;
use slimetora::ble::stop_scanning;
use slimetora::ble::Advertisement;
use slimetora::ble::BleState;
use slimetora::ble::SupervisorStart;
use slimetora::ble::TrackerDevice;
use slimetora::ble::DEFAULT_SCAN_MS;
use slimetora::ble::RECONNECT_TICK_MS;
use slimetora::ble::SCAN_TICK_MS;
use slimetora::ble::SETTING_SERVICE;
use slimetora::ble::SETTLE_MS;
use slimetora::ble::TRACKER_SERVICE;
use slimetora::error::ErrorKind;
use slimetora::model::TrackerModel;

fn advert(name: &str, address: &str, services: Vec<u128>) -> Advertisement {
    Advertisement { name: name.to_string(), address: address.to_string(), rssi: Some(-60), services }
}

fn device(name: &str, address: &str, model: Option<TrackerModel>) -> TrackerDevice {
    TrackerDevice {
        device_name: name.to_string(),
        mac_address: address.to_string(),
        tracker_type: model,
        rssi: Some(-60),
    }
}

fn macs(list: &[&str]) -> Vec<String> {
    list.iter().map(|m| m.to_string()).collect()
}

#[test]
fn timings() {
    assert_eq!(DEFAULT_SCAN_MS, 5000);
    assert_eq!(SCAN_TICK_MS, 3500);
    assert_eq!(RECONNECT_TICK_MS, 5000);
    assert_eq!(SETTLE_MS, 100);
    assert_eq!(SETTING_SERVICE, 0xef84369a_90a9_11ed_a1eb_0242ac120002);
    assert_eq!(TRACKER_SERVICE, 0x00dbec3a_90aa_11ed_a1eb_0242ac120002);
}

#[test]
fn second_scan_is_refused_while_the_first_runs() {
    let mut state = BleState::new();
    assert_eq!(start_scanning(&mut state, None), Ok(5000));
    assert!(state.scanning);
    assert_eq!(start_scanning(&mut state, None), Err(ErrorKind::ScanAlreadyRunning));
    assert_eq!(start_scanning(&mut state, Some(10)), Err(ErrorKind::ScanAlreadyRunning));
    assert!(state.scanning);
    scan_finished(&mut state, None);
    assert!(!state.scanning);
    assert_eq!(start_scanning(&mut state, Some(1234)), Ok(1234));
}

#[test]
fn scan_keeps_the_trackers() {
    let found = vec![
        advert("HaritoraXW-A1", "AA", vec![]),
        advert("Headphones", "BB", vec![0x180f]),
        advert("HaritoraX2-B2", "CC", vec![SETTING_SERVICE]),
        advert("", "DD", vec![0x1800, SETTING_SERVICE]),
        advert("HaritoraX-C3", "EE", vec![]),
        advert("haritoraxw-a1", "FF", vec![TRACKER_SERVICE]),
    ];
    let expected = vec![
        device("HaritoraXW-A1", "AA", Some(TrackerModel::Wireless)),
        device("HaritoraX2-B2", "CC", Some(TrackerModel::X2)),
        device("", "DD", None),
        device("HaritoraX-C3", "EE", Some(TrackerModel::Wired)),
    ];
    assert_eq!(filter_devices(&found), expected);
    let mut state = BleState::new();
    start_scanning(&mut state, None).unwrap();
    assert_eq!(scan_finished(&mut state, Some(found)), expected);
    assert_eq!(state.discovered_devices, expected);
    assert_eq!(state.device_name("CC"), Some("HaritoraX2-B2".to_string()));
    assert_eq!(state.device_name("DD"), Some(String::new()));
    assert_eq!(state.device_name("BB"), None);
}

#[test]
fn each_scan_replaces_what_was_discovered() {
    let mut state = BleState::new();
    scan_tick(&mut state, vec![advert("HaritoraXW-A1", "AA", vec![])]);
    assert_eq!(state.discovered_devices.len(), 1);
    scan_tick(&mut state, vec![advert("HaritoraX-C3", "EE", vec![]), advert("x", "y", vec![])]);
    assert_eq!(state.discovered_devices, vec![device("HaritoraX-C3", "EE", Some(TrackerModel::Wired))]);
    start_scanning(&mut state, None).unwrap();
    assert!(scan_finished(&mut state, None).is_empty());
    assert!(state.discovered_devices.is_empty());
    scan_tick(&mut state, vec![advert("HaritoraXW-A1", "AA", vec![])]);
    stop_scanning(&mut state);
    assert!(state.discovered_devices.is_empty());
    assert!(!state.scanning);
}

#[test]
fn second_supervisor_replaces_the_first() {
    let mut state = BleState::new();
    let first = start_connections(&mut state, macs(&["AA"]));
    assert_eq!(first, SupervisorStart { cancel: None, token: 1 });
    assert!(state.in_charge(first.token));
    let second = start_connections(&mut state, macs(&["AA"]));
    assert_eq!(second, SupervisorStart { cancel: Some(1), token: 2 });
    assert!(!state.in_charge(first.token));
    assert!(state.in_charge(second.token));
    assert_eq!(state.supervisor.as_ref().unwrap().paired, macs(&["AA"]));
}

#[test]
fn supervisor_tokens_wrap_around() {
    let mut state = BleState::new();
    state.last_token = u64::MAX - 1;
    assert_eq!(start_connections(&mut state, Vec::new()).token, u64::MAX);
    let next = start_connections(&mut state, Vec::new());
    assert_eq!(next, SupervisorStart { cancel: Some(u64::MAX), token: 0 });
}

#[test]
fn supervisor_connects_what_is_not_connected() {
    let mut state = BleState::new();
    assert!(reconnect_targets(&state).is_empty());
    start_connections(&mut state, macs(&["AA", "BB", "CC", "AA"]));
    assert_eq!(reconnect_targets(&state), macs(&["AA", "BB", "CC", "AA"]));
    device_connected(&mut state, "BB");
    assert!(state.is_connected("BB"));
    assert!(!state.is_connected("AA"));
    assert_eq!(reconnect_targets(&state), macs(&["AA", "CC", "AA"]));
    device_connected(&mut state, "AA");
    assert_eq!(reconnect_targets(&state), macs(&["CC"]));
}

#[test]
fn lost_device_is_taken_off_the_list() {
    let mut state = BleState::new();
    start_connections(&mut state, macs(&["AA", "BB"]));
    device_connected(&mut state, "AA");
    device_connected(&mut state, "BB");
    device_connected(&mut state, "AA");
    assert!(handle_device_disconnect(&mut state, "AA"));
    assert_eq!(state.connected_devices, macs(&["BB", "AA"]));
    assert!(handle_device_disconnect(&mut state, "AA"));
    assert!(!handle_device_disconnect(&mut state, "AA"));
    assert!(!handle_device_disconnect(&mut state, "CC"));
    assert_eq!(state.connected_devices, macs(&["BB"]));
    assert_eq!(reconnect_targets(&state), macs(&["AA"]));
}

#[test]
fn stop_clears_the_backend() {
    let mut state = BleState::new();
    scan_tick(&mut state, vec![advert("HaritoraXW-A1", "AA", vec![])]);
    let start = start_connections(&mut state, macs(&["AA"]));
    device_connected(&mut state, "AA");
    assert_eq!(stop_connections(&mut state), Some(start.token));
    assert!(state.connected_devices.is_empty());
    assert!(state.discovered_devices.is_empty());
    assert_eq!(state.supervisor, None);
    assert!(!state.in_charge(start.token));
    assert!(reconnect_targets(&state).is_empty());
    assert_eq!(stop_connections(&mut state), None);
    let again = start_connections(&mut state, macs(&["AA"]));
    assert_ne!(again.token, start.token);
    assert_eq!(again.cancel, None);
}

#[test]
fn body_part_from_the_assignment_characteristic() {
    assert_eq!(assignment_from_bytes(&[0x03]), Some("leftAnkle"));
    assert_eq!(assignment_from_bytes(&[0x00]), Some("DONGLE"));
    assert_eq!(assignment_from_bytes(&[0x0a]), Some("rightWrist"));
    assert_eq!(assignment_from_bytes(&[0x0d]), Some("rightFoot"));
    assert_eq!(assignment_from_bytes(&[0x0e]), None);
    assert_eq!(assignment_from_bytes(&[0x10]), None);
    assert_eq!(assignment_from_bytes(&[0x00, 0x03]), None);
    assert_eq!(assignment_from_bytes(&[]), None);
}

#[test]
fn notifications_are_named_after_the_device() {
    assert_eq!(notification_source(Some("HaritoraXW-A1"), "AA"), "HaritoraXW-A1");
    assert_eq!(notification_source(None, "AA"), "AA");
}

#[test]
fn devices_can_be_copied() {
    let d = device("n", "m", Some(TrackerModel::X2));
    assert_eq!(d.clone(), d);
}

#[test]
fn unread_assignment_is_empty() {
    assert_eq!(resolve_assignment(Some(&[0x03])), "leftAnkle");
    assert_eq!(resolve_assignment(Some(&[0x0e])), "");
    assert_eq!(resolve_assignment(Some(&[])), "");
    assert_eq!(resolve_assignment(None), "");
}

#[test]
fn subscriptions_after_connecting() {
    let plan = setup_notifications().unwrap();
    let names: Vec<&str> = plan.iter().map(|s| s.name).collect();
    assert_eq!(
        names,
        vec![
            "BatteryLevel",
            "Sensor",
            "Magnetometer",
            "MainButton",
            "SubButton",
            "TertiaryButton",
            "BatteryVoltage",
            "ChargeStatus",
        ]
    );
    assert_eq!(plan[0].uuid, 0x00002a19_0000_1000_8000_00805f9b34fb);
    assert_eq!(plan[1].uuid, 0x00dbf1c6_90aa_11ed_a1eb_0242ac120002);
    assert_eq!(plan[3].uuid, 0x00dbf450_90aa_11ed_a1eb_0242ac120002);
    assert_eq!(plan[4].uuid, 0x00dbf586_90aa_11ed_a1eb_0242ac120002);
    assert_eq!(plan[7].uuid, 0xef843cb2_90a9_11ed_a1eb_0242ac120002);
}

#[test]
fn connect_flow_of_a_paired_device() {
    let mac = "AA:BB:CC:DD:EE:FF";
    let mut state = BleState::new();
    scan_tick(&mut state, vec![advert("HaritoraXW-A1", mac, vec![SETTING_SERVICE])]);
    let start = start_connections(&mut state, macs(&[mac]));
    assert!(state.in_charge(start.token));
    assert_eq!(reconnect_targets(&state), macs(&[mac]));
    let name = state.device_name(mac);
    assert_eq!(name, Some("HaritoraXW-A1".to_string()));
    device_connected(&mut state, mac);
    assert_eq!(resolve_assignment(Some(&[0x06])), "hip");
    assert_eq!(notification_source(name.as_deref(), mac), "HaritoraXW-A1");
    assert!(setup_notifications().unwrap().len() >= 4);
    assert!(reconnect_targets(&state).is_empty());
    assert!(handle_device_disconnect(&mut state, mac));
    assert_eq!(reconnect_targets(&state), macs(&[mac]));
}
