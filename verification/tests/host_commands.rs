use slimetora::ble::device_connected;
use slimetora::ble::scan_tick;
use slimetora::ble::start_connections;
use slimetora::ble::start_scanning;
use slimetora::ble::Advertisement;
use slimetora::ble::BleState;
use slimetora::dispatch::Interpreters;
use slimetora::dispatch::ModelSet;
use slimetora::emulator::add_tracker;
use slimetora::emulator::start_heartbeat;
use slimetora::emulator::TrackerRegistry;
use slimetora::error::ErrorKind;
use slimetora::host::cleanup_connections;
use slimetora::host::connection_stopped;
use slimetora::host::filter_ports;
use slimetora::host::get_serial_ports;
use slimetora::host::start_connection;
use slimetora::host::stop_connection;
use slimetora::host::PortInfo;
use slimetora::host::StartPlan;
use slimetora::host::StopPlan;
use slimetora::host::UsbId;
use slimetora::model::TrackerModel;
use slimetora::serial::handle_line;
use slimetora::serial::SerialRegistry;

fn strings(list: &[&str]) -> Vec<String> {
    list.iter().map(|m| m.to_string()).collect()
}

fn port(name: &str, usb: Option<(u16, u16)>) -> PortInfo {
    PortInfo { port_name: name.to_string(), usb: usb.map(|(vid, pid)| UsbId { vid, pid }) }
}

fn available() -> Vec<PortInfo> {
    vec![
        port("COM1", None),
        port("COM3", Some((0x1915, 0x520F))),
        port("COM4", Some((0x04DA, 0x3F18))),
        port("COM5", Some((0x1915, 0x3F18))),
        port("COM6", Some((0x04DA, 0x520F))),
        port("COM7", Some((0x0403, 0x6001))),
        port("COM8", Some((0x1915, 0x520F))),
        port("COM8", None),
    ]
}

fn busy_backends() -> (BleState, SerialRegistry, TrackerRegistry) {
    let mut ble = BleState::new();
    scan_tick(
        &mut ble,
        vec![Advertisement {
            name: "HaritoraXW-A1".to_string(),
            address: "AA".to_string(),
            rssi: None,
            services: Vec::new(),
        }],
    );
    start_scanning(&mut ble, None).unwrap();
    start_connections(&mut ble, strings(&["AA"]));
    device_connected(&mut ble, "AA");
    let mut serial = SerialRegistry::new();
    handle_line(&mut serial, "COM5", "i0:{\"model\":\"MC3S\",\"serial no\":\"S1\"}");
    let mut registry = TrackerRegistry::new();
    start_heartbeat(&mut registry);
    add_tracker(&mut registry, "S1", [0; 6]).unwrap();
    registry.tracker_initialized("S1");
    add_tracker(&mut registry, "S2", [0; 6]).unwrap();
    (ble, serial, registry)
}

#[test]
fn keeps_the_dongles() {
    let ports = strings(&["COM1", "COM3", "COM4", "COM5", "COM6", "COM7", "COM8", "COM9"]);
    assert_eq!(filter_ports(ports, &available()), Ok(strings(&["COM3", "COM4", "COM8"])));
    assert_eq!(
        filter_ports(strings(&["COM4", "COM3", "COM4"]), &available()),
        Ok(strings(&["COM4", "COM3", "COM4"]))
    );
}

#[test]
fn filtering_twice_changes_nothing() {
    let ports = strings(&["COM8", "COM1", "COM3", "COM7", "COM4", "COM3"]);
    let once = filter_ports(ports, &available()).unwrap();
    let twice = filter_ports(once.clone(), &available()).unwrap();
    assert_eq!(once, twice);
    assert_eq!(once, strings(&["COM8", "COM3", "COM4", "COM3"]));
    let all = get_serial_ports(&available()).unwrap();
    let once = filter_ports(all, &available()).unwrap();
    assert_eq!(filter_ports(once.clone(), &available()), Ok(once));
}

#[test]
fn no_dongle_among_the_ports() {
    assert_eq!(filter_ports(strings(&["COM1", "COM7", "COM9"]), &available()), Err(ErrorKind::NotFound));
    assert_eq!(filter_ports(Vec::new(), &available()), Err(ErrorKind::NotFound));
    assert_eq!(filter_ports(strings(&["COM3"]), &Vec::new()), Err(ErrorKind::NotFound));
}

#[test]
fn lists_the_serial_ports() {
    assert_eq!(
        get_serial_ports(&available()),
        Ok(strings(&["COM1", "COM3", "COM4", "COM5", "COM6", "COM7", "COM8", "COM8"]))
    );
    assert_eq!(get_serial_ports(&Vec::new()), Err(ErrorKind::NotFound));
}

#[test]
fn start_needs_something_to_connect_to() {
    let mut set = Interpreters::new();
    let modes = strings(&["ble", "serial"]);
    assert_eq!(start_connection(&mut set, "Wireless", &modes, None, None), Err(ErrorKind::NotFound));
    assert_eq!(
        start_connection(&mut set, "Wireless", &modes, Some(Vec::new()), Some(Vec::new())),
        Err(ErrorKind::NotFound)
    );
    assert!(set.active_models().empty());
    assert!(set.registered_models().empty());
}

#[test]
fn start_needs_a_known_mode() {
    let mut set = Interpreters::new();
    assert_eq!(
        start_connection(&mut set, "Wireless", &strings(&["usb"]), Some(strings(&["COM3"])), None),
        Err(ErrorKind::UnknownIdentifier)
    );
    assert_eq!(
        start_connection(&mut set, "Wireless", &Vec::new(), Some(strings(&["COM3"])), None),
        Err(ErrorKind::UnknownIdentifier)
    );
    assert!(set.active_models().empty());
    assert!(set.registered_models().empty());
}

#[test]
fn start_needs_a_known_model() {
    let mut set = Interpreters::new();
    assert_eq!(
        start_connection(&mut set, "Wireles", &strings(&["serial"]), Some(strings(&["COM3"])), None),
        Err(ErrorKind::NoInterpreter)
    );
    assert!(set.active_models().empty());
}

#[test]
fn start_plans_the_backends() {
    let mut set = Interpreters::new();
    let plan = start_connection(
        &mut set,
        "Wireless",
        &strings(&["ble", "serial"]),
        Some(strings(&["COM3"])),
        Some(strings(&["AA", "BB"])),
    );
    assert_eq!(
        plan,
        Ok(StartPlan { ble: Some(strings(&["AA", "BB"])), serial: Some(strings(&["COM3"])) })
    );
    assert!(set.active_models().contains(TrackerModel::Wireless));
    let plan = start_connection(
        &mut set,
        "X2",
        &strings(&["serial"]),
        Some(strings(&["COM3"])),
        Some(strings(&["AA"])),
    );
    assert_eq!(plan, Ok(StartPlan { ble: None, serial: Some(strings(&["COM3"])) }));
    let plan = start_connection(&mut set, "X2", &strings(&["ble", "serial"]), None, Some(strings(&["AA"])));
    assert_eq!(plan, Ok(StartPlan { ble: Some(strings(&["AA"])), serial: None }));
    assert_eq!(set.active_models(), ModelSet { x2: true, wireless: true, wired: false });
}

#[test]
fn start_with_identifiers_of_the_other_mode() {
    let mut set = Interpreters::new();
    assert_eq!(
        start_connection(&mut set, "Wired", &strings(&["ble"]), Some(strings(&["COM3"])), None),
        Err(ErrorKind::NotFound)
    );
    assert!(set.active_models().contains(TrackerModel::Wired));
}

#[test]
fn stop_leaves_nothing_connected() {
    let (mut ble, mut serial, mut registry) = busy_backends();
    let mut set = Interpreters::new();
    start_connection(&mut set, "Wireless", &strings(&["ble"]), None, Some(strings(&["AA"]))).unwrap();
    let token = ble.supervisor.as_ref().unwrap().token;
    let plan = stop_connection(&mut ble, &mut serial, &strings(&["ble", "serial"]));
    assert_eq!(plan, StopPlan { serial: true, ble: true, cancel_supervisor: Some(token) });
    assert!(ble.connected_devices.is_empty());
    assert!(ble.discovered_devices.is_empty());
    assert!(!ble.scanning);
    assert!(!ble.in_charge(token));
    assert!(serial.trackers().is_empty());
    let shut_down = connection_stopped(&mut set, &mut registry, &strings(&["Wireless"]));
    assert_eq!(shut_down, Ok(strings(&["S1"])));
    assert_eq!(registry.slot("S1"), None);
    assert_eq!(registry.slot("S2"), None);
    assert_eq!(registry.slot("(HEARTBEAT)"), None);
    assert!(!registry.is_watching());
    assert!(set.active_models().empty());
}

#[test]
fn stop_of_one_mode_leaves_the_other() {
    let (mut ble, mut serial, _) = busy_backends();
    let plan = stop_connection(&mut ble, &mut serial, &strings(&["serial"]));
    assert_eq!(plan, StopPlan { serial: true, ble: false, cancel_supervisor: None });
    assert!(serial.trackers().is_empty());
    assert_eq!(ble.connected_devices, strings(&["AA"]));
    assert!(ble.supervisor.is_some());
    let (mut ble, mut serial, _) = busy_backends();
    let plan = stop_connection(&mut ble, &mut serial, &strings(&["ble"]));
    assert!(plan.ble && !plan.serial);
    assert_eq!(serial.trackers().len(), 1);
    assert!(ble.connected_devices.is_empty());
    let plan = stop_connection(&mut ble, &mut serial, &Vec::new());
    assert_eq!(plan, StopPlan { serial: false, ble: false, cancel_supervisor: None });
}

#[test]
fn stop_with_an_unknown_model_keeps_the_trackers() {
    let (_, _, mut registry) = busy_backends();
    let mut set = Interpreters::new();
    start_connection(&mut set, "Wireless", &strings(&["ble"]), None, Some(strings(&["AA"]))).unwrap();
    start_connection(&mut set, "X2", &strings(&["ble"]), None, Some(strings(&["AA"]))).unwrap();
    let result = connection_stopped(&mut set, &mut registry, &strings(&["X2", "Y3", "Wireless"]));
    assert_eq!(result, Err(ErrorKind::NoInterpreter));
    assert_eq!(set.active_models(), ModelSet { x2: false, wireless: true, wired: false });
    assert_eq!(registry.slot("S1"), Some(true));
    assert!(registry.is_watching());
}

#[test]
fn cleanup_stops_everything() {
    let (mut ble, mut serial, mut registry) = busy_backends();
    let token = ble.supervisor.as_ref().unwrap().token;
    let plan = cleanup_connections(&mut ble, &mut serial, &mut registry);
    assert_eq!(plan.cancel_supervisor, Some(token));
    assert_eq!(plan.shut_down, strings(&["S1"]));
    assert!(ble.connected_devices.is_empty());
    assert!(ble.discovered_devices.is_empty());
    assert!(!ble.scanning);
    assert_eq!(ble.supervisor, None);
    assert!(serial.trackers().is_empty());
    assert_eq!(registry.slot("S1"), None);
    assert!(!registry.is_watching());
    let plan = cleanup_connections(&mut ble, &mut serial, &mut registry);
    assert_eq!(plan.cancel_supervisor, None);
    assert!(plan.shut_down.is_empty());
}
