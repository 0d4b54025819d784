use slimetora::emulator::add_sensor;
use slimetora::emulator::add_tracker;
use slimetora::emulator::cancel_all_tasks;
use slimetora::emulator::clear_trackers;
use slimetora::emulator::creation_failed;
use slimetora::emulator::firmware_name;
use slimetora::emulator::remove_tracker;
use slimetora::emulator::start_heartbeat;
use slimetora::emulator::TrackerRegistry;
use slimetora::emulator::SensorSetup;
use slimetora::emulator::TrackerSetup;
use slimetora::emulator::SENSOR_ID;
use slimetora::emulator::SERVER_PORT;
use slimetora::error::ErrorKind;

#[test]
fn claims_a_name_once() {
    let mut registry = TrackerRegistry::new();
    assert_eq!(registry.slot("T"), None);
    let setup = add_tracker(&mut registry, "T", [1, 2, 3, 4, 5, 6]).unwrap();
    assert_eq!(
        setup,
        TrackerSetup {
            mac_seed: [1, 2, 3, 4, 5, 6],
            server_address: [255, 255, 255, 255],
            server_port: 6969,
            time_offset: 0,
            unreliable: false,
            watch_status: false,
        }
    );
    assert_eq!(SERVER_PORT, 6969);
    assert_eq!(registry.slot("T"), Some(false));
    assert_eq!(add_tracker(&mut registry, "T", [0; 6]), Err(ErrorKind::AlreadyExists));
    registry.tracker_initialized("T");
    assert_eq!(registry.slot("T"), Some(true));
    assert_eq!(add_tracker(&mut registry, "T", [0; 6]), Err(ErrorKind::AlreadyExists));
}

#[test]
fn tracker_must_be_live_to_be_driven() {
    let mut registry = TrackerRegistry::new();
    assert_eq!(registry.require_live("T"), Err(ErrorKind::NotFound));
    assert_eq!(add_sensor(&registry, "T"), Err(ErrorKind::NotFound));
    add_tracker(&mut registry, "T", [0; 6]).unwrap();
    assert_eq!(registry.require_live("T"), Err(ErrorKind::EmulatorFailed));
    assert_eq!(add_sensor(&registry, "T"), Err(ErrorKind::EmulatorFailed));
    registry.tracker_initialized("T");
    assert_eq!(registry.require_live("T"), Ok(()));
    assert_eq!(
        add_sensor(&registry, "T"),
        Ok(SensorSetup { sensor_id: SENSOR_ID, imu_type: 0, working: true })
    );
    assert_eq!(SENSOR_ID, 0);
}

#[test]
fn removes_a_tracker() {
    let mut registry = TrackerRegistry::new();
    assert_eq!(remove_tracker(&mut registry, "T"), Err(ErrorKind::NotFound));
    add_tracker(&mut registry, "T", [0; 6]).unwrap();
    assert_eq!(remove_tracker(&mut registry, "T"), Ok(false));
    assert_eq!(registry.slot("T"), None);
    add_tracker(&mut registry, "T", [0; 6]).unwrap();
    registry.tracker_initialized("T");
    add_tracker(&mut registry, "U", [0; 6]).unwrap();
    assert_eq!(remove_tracker(&mut registry, "T"), Ok(true));
    assert_eq!(registry.slot("T"), None);
    assert_eq!(registry.slot("U"), Some(false));
}

#[test]
fn clearing_returns_the_live_trackers() {
    let mut registry = TrackerRegistry::new();
    start_heartbeat(&mut registry);
    for name in ["A", "B", "C"] {
        add_tracker(&mut registry, name, [0; 6]).unwrap();
    }
    registry.tracker_initialized("A");
    registry.tracker_initialized("C");
    let mut live = clear_trackers(&mut registry);
    live.sort();
    assert_eq!(live, vec!["A".to_string(), "C".to_string()]);
    for name in ["A", "B", "C", "(HEARTBEAT)"] {
        assert_eq!(registry.slot(name), None);
    }
    assert!(!registry.is_watching());
    assert!(clear_trackers(&mut registry).is_empty());
}

#[test]
fn heartbeat_claims_its_name_once() {
    let mut registry = TrackerRegistry::new();
    assert!(!registry.is_watching());
    let plan = start_heartbeat(&mut registry);
    let setup = plan.create.unwrap();
    assert_eq!(setup.mac_seed, [0, 0, 0, 0, 0, 0]);
    assert!(!setup.watch_status);
    assert!(registry.is_watching());
    assert_eq!(registry.slot("(HEARTBEAT)"), Some(false));
    let again = start_heartbeat(&mut registry);
    assert_eq!(again.create, None);
    assert!(registry.is_watching());
}

#[test]
fn trackers_are_watched_while_a_heartbeat_runs() {
    let mut registry = TrackerRegistry::new();
    start_heartbeat(&mut registry);
    assert!(add_tracker(&mut registry, "T", [0; 6]).unwrap().watch_status);
    assert!(cancel_all_tasks(&mut registry));
    assert!(!cancel_all_tasks(&mut registry));
    assert!(!add_tracker(&mut registry, "U", [0; 6]).unwrap().watch_status);
    assert_eq!(registry.slot("T"), Some(false));
}

#[test]
fn firmware_name_carries_the_version() {
    assert_eq!(firmware_name("1.2.3"), "SlimeTora 1.2.3");
    assert_eq!(firmware_name(""), "SlimeTora ");
}

#[test]
fn failed_creation_releases_the_name() {
    let mut registry = TrackerRegistry::new();
    assert!(!creation_failed(&mut registry, "T"));
    add_tracker(&mut registry, "T", [0; 6]).unwrap();
    add_tracker(&mut registry, "U", [0; 6]).unwrap();
    assert!(creation_failed(&mut registry, "T"));
    assert_eq!(registry.slot("T"), None);
    assert_eq!(registry.slot("U"), Some(false));
    assert!(add_tracker(&mut registry, "T", [0; 6]).is_ok());
    registry.tracker_initialized("T");
    assert!(!creation_failed(&mut registry, "T"));
    assert_eq!(registry.slot("T"), Some(true));
}
