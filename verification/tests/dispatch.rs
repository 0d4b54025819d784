use slimetora::dispatch::dispatch_ble;
use slimetora::dispatch::dispatch_serial;
use slimetora::dispatch::init_interpreters;
use slimetora::dispatch::model_of_device;
use slimetora::dispatch::model_of_name;
use slimetora::dispatch::model_of_tracker_name;
use slimetora::dispatch::process_ble;
use slimetora::dispatch::process_serial;
use slimetora::dispatch::start_interpreting;
use slimetora::dispatch::stop_interpreting;
use slimetora::dispatch::Interpreters;
use slimetora::dispatch::ModelSet;
use slimetora::effects::Effect;
use slimetora::error::ErrorKind;
use slimetora::interpreters::BridgeState;
use slimetora::model::TrackerModel;

fn active(models: &[&str]) -> Interpreters {
    let mut set = Interpreters::new();
    for model in models {
        start_interpreting(&mut set, model).unwrap();
    }
    set
}

#[test]
fn registers_all_interpreters() {
    let mut set = Interpreters::new();
    assert_eq!(set.registered_models(), ModelSet { x2: false, wireless: false, wired: false });
    init_interpreters(&mut set);
    assert_eq!(set.registered_models(), ModelSet { x2: true, wireless: true, wired: true });
    assert!(set.active_models().empty());
}

#[test]
fn starts_and_stops_models() {
    let mut set = Interpreters::new();
    assert_eq!(start_interpreting(&mut set, "Wireless"), Ok(()));
    assert_eq!(set.registered_models(), ModelSet { x2: true, wireless: true, wired: true });
    assert_eq!(set.active_models(), ModelSet { x2: false, wireless: true, wired: false });
    assert_eq!(start_interpreting(&mut set, "X2"), Ok(()));
    assert_eq!(start_interpreting(&mut set, "X2"), Ok(()));
    assert!(set.active_models().contains(TrackerModel::X2));
    assert_eq!(stop_interpreting(&mut set, "Wireless"), Ok(()));
    assert_eq!(set.active_models(), ModelSet { x2: true, wireless: false, wired: false });
    assert_eq!(stop_interpreting(&mut set, "Wired"), Ok(()));
    assert_eq!(stop_interpreting(&mut set, "X2"), Ok(()));
    assert!(set.active_models().empty());
}

#[test]
fn unknown_model_names_are_refused() {
    let mut set = Interpreters::new();
    assert_eq!(start_interpreting(&mut set, "wireless"), Err(ErrorKind::NoInterpreter));
    assert_eq!(set.registered_models(), ModelSet { x2: true, wireless: true, wired: true });
    assert!(set.active_models().empty());
    assert_eq!(stop_interpreting(&mut set, ""), Err(ErrorKind::NoInterpreter));
}

#[test]
fn every_named_model_can_be_started() {
    for name in ["X2", "Wireless", "Wired"] {
        let mut set = Interpreters::new();
        assert!(!set.is_served(model_of_name(name).unwrap()));
        assert_eq!(start_interpreting(&mut set, name), Ok(()));
        assert!(set.is_served(model_of_name(name).unwrap()));
        assert_eq!(set.walk_active(), vec![model_of_name(name).unwrap()]);
    }
}

#[test]
fn walk_hands_out_every_active_model_once() {
    let set = active(&["Wired", "X2", "Wired"]);
    let mut walk = set.walk_active();
    walk.sort_by_key(|model| model.tag());
    assert_eq!(walk, vec![TrackerModel::Wired, TrackerModel::X2]);
    assert!(Interpreters::new().walk_active().is_empty());
}

#[test]
fn model_sets() {
    let none = ModelSet { x2: false, wireless: false, wired: false };
    assert!(none.empty());
    let wired = ModelSet { x2: false, wireless: false, wired: true };
    assert!(!wired.empty());
    assert!(wired.contains(TrackerModel::Wired));
    assert!(!wired.contains(TrackerModel::X2));
    assert!(!wired.contains(TrackerModel::Wireless));
}

#[test]
fn names_of_models() {
    assert_eq!(model_of_name("X2"), Some(TrackerModel::X2));
    assert_eq!(model_of_name("Wireless"), Some(TrackerModel::Wireless));
    assert_eq!(model_of_name("Wired"), Some(TrackerModel::Wired));
    assert_eq!(model_of_name("x2"), None);
    assert_eq!(model_of_device("HaritoraX2-AB12"), Some(TrackerModel::X2));
    assert_eq!(model_of_device("HaritoraXW-AB12"), Some(TrackerModel::Wireless));
    assert_eq!(model_of_device("HaritoraX-AB12"), Some(TrackerModel::Wired));
    assert_eq!(model_of_device("HaritoraX"), None);
    assert_eq!(model_of_device("My HaritoraX-1"), None);
    assert_eq!(model_of_tracker_name("HaritoraX2-AB"), Some(TrackerModel::X2));
    assert_eq!(model_of_tracker_name("aXWb"), Some(TrackerModel::Wireless));
    assert_eq!(model_of_tracker_name("aXb"), Some(TrackerModel::Wired));
    assert_eq!(model_of_tracker_name("S12345"), None);
}

#[test]
fn nothing_is_interpreted_without_an_active_model() {
    let set = Interpreters::new();
    let mut state = BridgeState::new();
    let dispatch = process_serial(&set, &mut state, "S1", "hip", None, "o0:0", 0);
    assert_eq!(dispatch.result, Err(ErrorKind::NoInterpreter));
    assert!(dispatch.attempts.is_empty());
    let dispatch = process_ble(&set, &mut state, "HaritoraXW-1", "hip", "Magnetometer", "Aw==");
    assert_eq!(dispatch.result, Err(ErrorKind::NoInterpreter));
    assert!(dispatch.attempts.is_empty());
}

#[test]
fn serial_line_goes_to_the_tracker_model() {
    let set = active(&["X2", "Wireless"]);
    let mut state = BridgeState::new();
    let dispatch =
        process_serial(&set, &mut state, "S1", "hip", Some(TrackerModel::Wireless), "a0:284128442f30", 0);
    assert_eq!(dispatch.result, Ok(()));
    assert_eq!(dispatch.attempts.len(), 1);
    assert_eq!(dispatch.attempts[0].model, TrackerModel::Wireless);
    let dispatch = process_serial(&set, &mut state, "S1", "hip", None, "a0:284128442f30", 0);
    assert_eq!(dispatch.result, Ok(()));
    assert_eq!(dispatch.attempts.len(), 1);
    assert_eq!(dispatch.attempts[0].model, set.walk_active()[0]);
    let dispatch = process_serial(&set, &mut state, "myXWtracker", "hip", None, "a0:284128442f30", 0);
    assert_eq!(dispatch.attempts[0].model, TrackerModel::Wireless);
}

#[test]
fn serial_line_of_an_inactive_model_goes_to_the_active_ones() {
    let set = active(&["Wired"]);
    let mut state = BridgeState::new();
    let dispatch =
        process_serial(&set, &mut state, "S1", "hip", Some(TrackerModel::X2), "a0:284128442f30", 0);
    assert_eq!(dispatch.result, Ok(()));
    assert_eq!(dispatch.attempts.len(), 1);
    assert_eq!(dispatch.attempts[0].model, TrackerModel::Wired);
}

#[test]
fn serial_line_that_nobody_accepts() {
    let set = active(&["X2", "Wired"]);
    let mut state = BridgeState::new();
    let dispatch = process_serial(&set, &mut state, "S1", "hip", Some(TrackerModel::Wired), "a0:zz", 0);
    assert_eq!(dispatch.result, Err(ErrorKind::NoInterpreter));
    let models: Vec<TrackerModel> = dispatch.attempts.iter().map(|r| r.model).collect();
    let mut expected = vec![TrackerModel::Wired];
    expected.extend(set.walk_active());
    assert_eq!(models, expected);
    for attempt in &dispatch.attempts {
        assert_eq!(attempt.error, Some(ErrorKind::InvalidPacket));
    }
}

#[test]
fn serial_line_in_a_given_order() {
    let set = active(&["X2", "Wireless", "Wired"]);
    let mut state = BridgeState::new();
    let order = vec![TrackerModel::Wired, TrackerModel::X2, TrackerModel::Wireless];
    let dispatch = dispatch_serial(&set, &mut state, &order, "S1", "hip", None, "a0:284128442f30", 0);
    assert_eq!(dispatch.result, Ok(()));
    assert_eq!(dispatch.attempts.len(), 1);
    assert_eq!(dispatch.attempts[0].model, TrackerModel::Wired);
    let dispatch = dispatch_serial(&set, &mut state, &order, "S1", "hip", None, "a0:zz", 0);
    assert_eq!(dispatch.result, Err(ErrorKind::NoInterpreter));
    let models: Vec<TrackerModel> = dispatch.attempts.iter().map(|r| r.model).collect();
    assert_eq!(models, order);
    let only = active(&["X2"]);
    let dispatch = dispatch_serial(&only, &mut state, &order, "S1", "hip", None, "a0:284128442f30", 0);
    assert_eq!(dispatch.attempts.len(), 1);
    assert_eq!(dispatch.attempts[0].model, TrackerModel::X2);
    let dispatch = dispatch_serial(&only, &mut state, &Vec::new(), "S1", "hip", None, "a0:284128442f30", 0);
    assert_eq!(dispatch.result, Err(ErrorKind::NoInterpreter));
    assert!(dispatch.attempts.is_empty());
}

#[test]
fn bluetooth_notification_goes_to_the_named_model_only() {
    let set = active(&["X2", "Wireless", "Wired"]);
    let mut state = BridgeState::new();
    let dispatch = process_ble(&set, &mut state, "HaritoraXW-77", "hip", "Magnetometer", "Aw==");
    assert_eq!(dispatch.result, Ok(()));
    assert_eq!(dispatch.attempts.len(), 1);
    assert_eq!(dispatch.attempts[0].model, TrackerModel::Wireless);
    let dispatch = process_ble(&set, &mut state, "HaritoraXW-77", "hip", "Magnetometer", "");
    assert_eq!(dispatch.result, Err(ErrorKind::InvalidPacket));
    assert_eq!(dispatch.attempts.len(), 1);
}

#[test]
fn bluetooth_notification_of_an_unnamed_device() {
    let set = active(&["Wireless", "Wired"]);
    let mut state = BridgeState::new();
    let dispatch = process_ble(&set, &mut state, "AA:BB:CC:DD:EE:FF", "hip", "MainButton", "AQ==");
    assert_eq!(dispatch.result, Ok(()));
    assert_eq!(dispatch.attempts.len(), 1);
    assert_eq!(dispatch.attempts[0].model, set.walk_active()[0]);
    assert_eq!(dispatch.attempts[0].effects.len(), 1);
    let dispatch = process_ble(&set, &mut state, "AA:BB:CC:DD:EE:FF", "hip", "MainButton", "?");
    assert_eq!(dispatch.result, Err(ErrorKind::NoInterpreter));
    assert_eq!(dispatch.attempts.len(), 2);
    let dispatch = process_ble(&set, &mut state, "HaritoraX2-1", "hip", "Sensor", "AEAAAAAAAEAAAAAAAAE=");
    assert_eq!(dispatch.attempts[0].model, set.walk_active()[0]);
    assert_eq!(dispatch.attempts[0].effects[1], Effect::Connect { assignment: "hip".to_string() });
}

#[test]
fn bluetooth_notification_in_a_given_order() {
    let set = active(&["Wireless", "Wired"]);
    let mut state = BridgeState::new();
    let order = vec![TrackerModel::Wired, TrackerModel::Wireless];
    let dispatch = dispatch_ble(&set, &mut state, &order, "AA", "hip", "TertiaryButton", "AQ==");
    assert_eq!(dispatch.result, Ok(()));
    assert_eq!(dispatch.attempts.len(), 1);
    assert_eq!(dispatch.attempts[0].model, TrackerModel::Wired);
    assert!(dispatch.attempts[0].effects.is_empty());
    let order = vec![TrackerModel::Wireless, TrackerModel::Wired];
    let dispatch = dispatch_ble(&set, &mut state, &order, "AA", "hip", "TertiaryButton", "AQ==");
    assert_eq!(dispatch.attempts[0].model, TrackerModel::Wireless);
    assert_eq!(dispatch.attempts[0].effects.len(), 1);
}
