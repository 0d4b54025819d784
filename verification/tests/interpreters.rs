use slimetora::effects::Effect;
use slimetora::effects::Report;
use slimetora::emulator::creation_failed;
use slimetora::emulator::TrackerSetup;
use slimetora::error::ErrorKind;
use slimetora::imu::Acceleration;
use slimetora::imu::Rotation;
use slimetora::interpreters::ankle_from_frame;
use slimetora::interpreters::frame_kind_of;
use slimetora::interpreters::interpret_ble;
use slimetora::interpreters::interpret_serial;
use slimetora::interpreters::mag_status_from_encoded;
use slimetora::interpreters::process_connection;
use slimetora::interpreters::process_imu;
use slimetora::interpreters::process_info;
use slimetora::interpreters::process_mag;
use slimetora::interpreters::process_settings;
use slimetora::interpreters::split_line;
use slimetora::interpreters::BridgeState;
use slimetora::interpreters::FrameKind;
use slimetora::interpreters::HaritoraX2;
use slimetora::interpreters::HaritoraXWired;
use slimetora::interpreters::HaritoraXWireless;
use slimetora::model::BatteryData;
use slimetora::model::ButtonRole;
use slimetora::model::ChargeStatus;
use slimetora::model::ConnectionData;
use slimetora::model::ConnectionMode;
use slimetora::model::MagStatus;
use slimetora::model::SettingsData;
use slimetora::model::TrackerModel;

const FRAME: [u8; 14] = [
    0x00, 0x40, 0x00, 0x00, 0x00, 0x00, 0x00, 0x40, 0x00, 0x00, 0x00, 0x00, 0x00, 0x01,
];
const FRAME_TEXT: &str = "AEAAAAAAAEAAAAAAAAE=";
const ROTATION: Rotation = Rotation { x: 16384, y: 0, z: 0, w: -16384 };
const ACCELERATION: Acceleration = Acceleration { x: 0, y: 1_580_011_094_016, z: 81_000_000_000 };

fn setup() -> TrackerSetup {
    TrackerSetup {
        mac_seed: [0, 0, 0, 0, 0, 1],
        server_address: [255, 255, 255, 255],
        server_port: 6969,
        time_offset: 0,
        unreliable: false,
        watch_status: false,
    }
}

fn connect() -> Effect {
    Effect::Connect { assignment: "hip".to_string() }
}

fn imu_effects(ankle: Option<u16>, mag: Option<MagStatus>) -> Vec<Effect> {
    let mut effects = vec![Effect::Imu { rotation: ROTATION, acceleration: ACCELERATION, ankle }];
    if let Some(status) = mag {
        effects.push(Effect::Mag(status));
    }
    effects.push(Effect::SendRotation(ROTATION));
    effects.push(Effect::SendAcceleration(ACCELERATION));
    effects
}

#[test]
fn first_frame_creates_the_tracker() {
    let mut state = BridgeState::new();
    let report =
        process_imu(&mut state, TrackerModel::Wireless, "T", "hip", ConnectionMode::Bluetooth, &FRAME);
    let mut expected = vec![Effect::AddTracker(setup()), connect()];
    expected.extend(imu_effects(Some(0x0100), None));
    assert_eq!(report, Report { model: TrackerModel::Wireless, effects: expected, error: None });
    assert_eq!(state.registry.slot("T"), Some(false));
}

#[test]
fn frames_are_skipped_while_the_tracker_is_created() {
    let mut state = BridgeState::new();
    process_imu(&mut state, TrackerModel::Wireless, "T", "hip", ConnectionMode::Bluetooth, &FRAME);
    for _ in 0..3 {
        let report =
            process_imu(&mut state, TrackerModel::Wireless, "T", "hip", ConnectionMode::Bluetooth, &FRAME);
        assert_eq!(report, Report::quiet(TrackerModel::Wireless));
    }
    assert_eq!(state.registry.slot("T"), Some(false));
}

#[test]
fn one_connect_for_many_frames() {
    let mut state = BridgeState::new();
    let mut connects = 0;
    let mut creations = 0;
    for round in 0..6 {
        if round == 3 {
            state.registry.tracker_initialized("T");
        }
        let report =
            process_imu(&mut state, TrackerModel::X2, "T", "hip", ConnectionMode::Serial, &FRAME);
        connects += report.effects.iter().filter(|e| **e == connect()).count();
        creations += report.effects.iter().filter(|e| matches!(e, Effect::AddTracker(_))).count();
    }
    assert_eq!(connects, 1);
    assert_eq!(creations, 1);
    assert_eq!(state.registry.slot("T"), Some(true));
}

#[test]
fn live_tracker_gets_its_frames() {
    let mut state = BridgeState::new();
    process_imu(&mut state, TrackerModel::Wireless, "T", "hip", ConnectionMode::Serial, &FRAME);
    state.registry.tracker_initialized("T");
    let report =
        process_imu(&mut state, TrackerModel::Wireless, "T", "hip", ConnectionMode::Serial, &FRAME);
    assert_eq!(
        report,
        Report {
            model: TrackerModel::Wireless,
            effects: imu_effects(Some(0x0100), Some(MagStatus::VeryBad)),
            error: None
        }
    );
    assert!(report.accepted());
}

#[test]
fn wired_frames_carry_no_ankle() {
    let mut state = BridgeState::new();
    state.registry.tracker_initialized("T");
    let report =
        process_imu(&mut state, TrackerModel::Wired, "T", "hip", ConnectionMode::Bluetooth, &FRAME);
    assert_eq!(report.effects, imu_effects(None, None));
    let report = process_imu(&mut state, TrackerModel::X2, "T", "hip", ConnectionMode::Bluetooth, &FRAME);
    assert_eq!(report.effects, imu_effects(Some(0x0100), None));
}

#[test]
fn bad_frame_after_creation() {
    let mut state = BridgeState::new();
    let report =
        process_imu(&mut state, TrackerModel::Wireless, "T", "hip", ConnectionMode::Serial, &FRAME[..10]);
    assert_eq!(report.effects, vec![Effect::AddTracker(setup()), connect()]);
    assert_eq!(report.error, Some(ErrorKind::InvalidPacket));
    assert!(!report.accepted());
    assert_eq!(state.registry.slot("T"), Some(false));
    state.registry.tracker_initialized("T");
    let report =
        process_imu(&mut state, TrackerModel::Wireless, "T", "hip", ConnectionMode::Serial, &FRAME[..10]);
    assert_eq!(report, Report::refusal(TrackerModel::Wireless, ErrorKind::InvalidPacket));
}

#[test]
fn frame_without_tracker_name() {
    let mut state = BridgeState::new();
    let report = process_imu(&mut state, TrackerModel::Wireless, "", "hip", ConnectionMode::Serial, &FRAME);
    assert_eq!(report, Report::refusal(TrackerModel::Wireless, ErrorKind::InvalidPacket));
    assert_eq!(state.registry.slot(""), None);
}

#[test]
fn ankle_depends_on_the_padding() {
    assert_eq!(ankle_from_frame(&FRAME, FRAME_TEXT), Some(0x0100));
    let mut long = FRAME.to_vec();
    long.extend_from_slice(&[0x34, 0x12]);
    assert_eq!(ankle_from_frame(&long, "AEAAAAAAAEAAAAAAAAE0Eg=="), None);
    long.extend_from_slice(&[0x78, 0x56]);
    assert_eq!(ankle_from_frame(&long, "AEAAAAAAAEAAAAAAAAE0EnhW"), Some(0x5678));
    assert_eq!(ankle_from_frame(&[7], "Bw=="), None);
    assert_eq!(ankle_from_frame(&[], ""), None);
    assert_eq!(ankle_from_frame(&[1, 2], ""), Some(0x0201));
}

#[test]
fn embedded_mag_status_by_character() {
    assert_eq!(mag_status_from_encoded("AEAAAAAAAEAAAAAAAAE="), MagStatus::VeryBad);
    assert_eq!(mag_status_from_encoded("AEAAAAAAAEAAAAABAAE="), MagStatus::Bad);
    assert_eq!(mag_status_from_encoded("AEAAAAAAAEAAAAACAAE="), MagStatus::Okay);
    assert_eq!(mag_status_from_encoded("AEAAAAAAAEAAAAADAAE="), MagStatus::Great);
    assert_eq!(mag_status_from_encoded("AEAAAAAAAEAAAAAEAAE="), MagStatus::Unknown);
    assert_eq!(mag_status_from_encoded("DAAE"), MagStatus::Unknown);
    assert_eq!(mag_status_from_encoded("DAAE="), MagStatus::Great);
    assert_eq!(mag_status_from_encoded(""), MagStatus::Unknown);
}

#[test]
fn serial_frame_with_good_magnetometer() {
    let mut state = BridgeState::new();
    state.registry.tracker_initialized("S1");
    let report =
        interpret_serial(&mut state, TrackerModel::Wireless, "S1", "hip", "x0:AEAAAAAAAEAAAAADAAE=", 0);
    assert_eq!(report.error, None);
    assert_eq!(report.effects.len(), 4);
    assert_eq!(report.effects[1], Effect::Mag(MagStatus::Great));
}

#[test]
fn splits_lines_at_the_first_colon() {
    assert_eq!(split_line("x0:abc"), ("x0", "abc"));
    assert_eq!(split_line("i0:{\"a\":\"b:c\"}"), ("i0", "{\"a\":\"b:c\"}"));
    assert_eq!(split_line(":"), ("", ""));
    assert_eq!(split_line("r:"), ("r", ""));
    assert_eq!(split_line("no colon"), ("", ""));
    assert_eq!(split_line(""), ("", ""));
}

#[test]
fn frame_kinds() {
    assert_eq!(frame_kind_of("x0"), Ok(FrameKind::Imu));
    assert_eq!(frame_kind_of("v1"), Ok(FrameKind::Battery));
    assert_eq!(frame_kind_of("r"), Ok(FrameKind::Button));
    assert_eq!(frame_kind_of("o0"), Ok(FrameKind::Settings));
    assert_eq!(frame_kind_of("i1"), Ok(FrameKind::Info));
    assert_eq!(frame_kind_of("a0"), Ok(FrameKind::Link));
    assert_eq!(frame_kind_of("X0"), Err(ErrorKind::UnknownIdentifier));
    assert_eq!(frame_kind_of("z"), Err(ErrorKind::UnknownIdentifier));
    assert_eq!(frame_kind_of(""), Err(ErrorKind::UnknownIdentifier));
}

#[test]
fn serial_lines_by_identifier() {
    let mut state = BridgeState::new();
    let model = TrackerModel::Wireless;
    let report = interpret_serial(&mut state, model, "S1", "hip",
        "v0:{\"battery remaining\": 87, \"battery voltage\": 4012, \"charge status\": \"charging\"}",
        0,
    );
    let battery = BatteryData {
        remaining: Some(87),
        voltage: Some(4012),
        status: Some(ChargeStatus::Charging),
    };
    assert_eq!(
        report.effects,
        vec![Effect::Battery(battery), Effect::SendBattery { percent: 87, millivolts: 4012 }]
    );
    let report = interpret_serial(&mut state, model, "S1", "hip", "r0:0000001000", 10);
    assert_eq!(report.effects, vec![Effect::Button(ButtonRole::Sub)]);
    let report = interpret_serial(&mut state, model, "S1", "hip", "r0:0000002000", 100);
    assert_eq!(report.effects, vec![Effect::Button(ButtonRole::Main)]);
    let report = interpret_serial(&mut state, model, "S1", "hip", "o0:00000110000001", 0);
    assert_eq!(report, process_settings(model, "00000110000001"));
    assert_eq!(report.effects.len(), 1);
    let report = interpret_serial(&mut state, model, "S1", "hip", "i0:{\"model\":\"MC3S\"}", 0);
    assert_eq!(report, process_info(model, "{\"model\":\"MC3S\"}"));
    assert!(matches!(&report.effects[0], Effect::Info(info) if info.model == "MC3S"));
    let report = interpret_serial(&mut state, model, "S1", "hip", "a0:284128442f30", 0);
    assert_eq!(
        report.effects,
        vec![Effect::Connection(ConnectionData { dongle_rssi: Some(40), tracker_rssi: Some(65) })]
    );
}

#[test]
fn identifier_case_does_not_matter() {
    let mut state = BridgeState::new();
    state.registry.tracker_initialized("S1");
    let lower = interpret_serial(&mut state, TrackerModel::Wireless, "S1", "hip", "x0:AEAAAAAAAEAAAAAAAAE=", 0);
    let upper = interpret_serial(&mut state, TrackerModel::Wireless, "S1", "hip", "X0:AEAAAAAAAEAAAAAAAAE=", 0);
    assert_eq!(lower, upper);
    assert_eq!(upper.effects.len(), 4);
}

#[test]
fn serial_lines_that_are_ignored_or_refused() {
    let mut state = BridgeState::new();
    let model = TrackerModel::Wireless;
    assert_eq!(interpret_serial(&mut state, model, "", "hip", "x0:AEAAAAAAAEAAAAAAAAE=", 0), Report::quiet(model));
    assert_eq!(interpret_serial(&mut state, model, "S1", "hip", "z0:whatever", 0), Report::quiet(model));
    assert_eq!(interpret_serial(&mut state, model, "S1", "hip", "no colon", 0), Report::quiet(model));
    assert_eq!(
        interpret_serial(&mut state, model, "S1", "hip", "x0:***", 0),
        Report::refusal(model, ErrorKind::DecodeFailed)
    );
    assert_eq!(
        interpret_serial(&mut state, model, "S1", "hip", "i0:{", 0),
        Report::refusal(model, ErrorKind::DecodeFailed)
    );
    assert_eq!(
        interpret_serial(&mut state, model, "S1", "hip", "a0:7f", 0),
        Report::refusal(model, ErrorKind::InvalidPacket)
    );
    assert_eq!(
        interpret_serial(&mut state, model, "S1", "hip", "v0:{\"charge status\":\"?\"}", 0),
        Report::refusal(model, ErrorKind::UnknownStatus)
    );
    assert_eq!(state.registry.slot("S1"), None);
}

#[test]
fn link_loss_removes_the_tracker_and_frames_recreate_it() {
    let mut state = BridgeState::new();
    let model = TrackerModel::Wireless;
    interpret_serial(&mut state, model, "S12345", "hip", "x0:AEAAAAAAAEAAAAAAAAE=", 0);
    state.registry.tracker_initialized("S12345");
    let report = interpret_serial(&mut state, model, "S12345", "hip", "a0:7f7f7f7f7f7f", 0);
    assert_eq!(report.effects, vec![Effect::ShutDownTracker, Effect::Disconnect]);
    assert_eq!(report.error, None);
    assert_eq!(state.registry.slot("S12345"), None);
    let report = interpret_serial(&mut state, model, "S12345", "hip", "x0:AEAAAAAAAEAAAAAAAAE=", 0);
    assert_eq!(report.effects[0], Effect::AddTracker(setup()));
    assert_eq!(report.effects[1], connect());
    assert_eq!(state.registry.slot("S12345"), Some(false));
}

#[test]
fn link_loss_of_a_tracker_that_is_not_live() {
    let mut state = BridgeState::new();
    let model = TrackerModel::X2;
    let report = process_connection(&mut state, model, "T", "7f7f7f7f7f7f");
    assert_eq!(
        report.effects,
        vec![Effect::Connection(ConnectionData { dongle_rssi: None, tracker_rssi: None })]
    );
    interpret_serial(&mut state, model, "T", "hip", "x0:AEAAAAAAAEAAAAAAAAE=", 0);
    let report = process_connection(&mut state, model, "T", "7f7f7f7f7f7f");
    assert_eq!(report.effects, vec![Effect::Disconnect]);
    assert_eq!(state.registry.slot("T"), None);
}

#[test]
fn bluetooth_notifications_by_characteristic() {
    let mut state = BridgeState::new();
    let model = TrackerModel::Wireless;
    let name = "HaritoraXW-ABC";
    let report = interpret_ble(&mut state, model, name, "hip", "Sensor", FRAME_TEXT);
    assert_eq!(report.effects.len(), 5);
    assert_eq!(report.effects[1], connect());
    assert_eq!(report.effects[2], Effect::Imu { rotation: ROTATION, acceleration: ACCELERATION, ankle: Some(256) });
    assert_eq!(
        interpret_ble(&mut state, model, name, "hip", "MainButton", "AQ==").effects,
        vec![Effect::Button(ButtonRole::Main)]
    );
    assert_eq!(
        interpret_ble(&mut state, model, name, "hip", "SubButton", "AQ==").effects,
        vec![Effect::Button(ButtonRole::Sub)]
    );
    assert_eq!(
        interpret_ble(&mut state, model, name, "hip", "TertiaryButton", "AQ==").effects,
        vec![Effect::Button(ButtonRole::Tertiary)]
    );
    assert_eq!(interpret_ble(&mut state, model, name, "hip", "Magnetometer", "Ag=="), process_mag(model, "Ag=="));
    assert_eq!(
        interpret_ble(&mut state, model, name, "hip", "Magnetometer", "Ag==").effects,
        vec![Effect::Mag(MagStatus::Okay)]
    );
    for ignored in ["FpsSetting", "TofSetting", "SensorModeSetting", "AutoCalibrationSetting", "Other"] {
        assert_eq!(interpret_ble(&mut state, model, name, "hip", ignored, "AQ=="), Report::quiet(model));
    }
}

#[test]
fn bluetooth_battery_is_aggregated() {
    let mut state = BridgeState::new();
    let model = TrackerModel::Wireless;
    assert_eq!(interpret_ble(&mut state, model, "T", "hip", "BatteryLevel", "QA=="), Report::quiet(model));
    let report = interpret_ble(&mut state, model, "T", "hip", "BatteryVoltage", "qA4=");
    assert_eq!(
        report.effects,
        vec![
            Effect::Battery(BatteryData { remaining: Some(64), voltage: Some(3752), status: None }),
            Effect::SendBattery { percent: 64, millivolts: 3752 },
        ]
    );
    let report = interpret_ble(&mut state, model, "T", "hip", "ChargeStatus", "AQ==");
    assert_eq!(
        report.effects,
        vec![
            Effect::Battery(BatteryData {
                remaining: None,
                voltage: None,
                status: Some(ChargeStatus::Charging)
            }),
            Effect::SendBattery { percent: 0, millivolts: 0 },
        ]
    );
}

#[test]
fn bluetooth_payload_must_be_base64() {
    let mut state = BridgeState::new();
    for characteristic in ["Sensor", "MainButton", "Other"] {
        assert_eq!(
            interpret_ble(&mut state, TrackerModel::X2, "T", "hip", characteristic, "%%%"),
            Report::refusal(TrackerModel::X2, ErrorKind::DecodeFailed)
        );
    }
}

#[test]
fn wired_trackers_have_no_third_button() {
    let mut state = BridgeState::new();
    assert_eq!(
        interpret_ble(&mut state, TrackerModel::Wired, "T", "hip", "TertiaryButton", "AQ=="),
        Report::quiet(TrackerModel::Wired)
    );
    assert_eq!(
        interpret_ble(&mut state, TrackerModel::Wired, "T", "hip", "MainButton", "AQ==").effects,
        vec![Effect::Button(ButtonRole::Main)]
    );
}

#[test]
fn interpreters_tag_their_reports() {
    let mut state = BridgeState::new();
    assert_eq!(HaritoraX2.parse_ble(&mut state, "T", "hip", "Magnetometer", "Aw==").model, TrackerModel::X2);
    assert_eq!(
        HaritoraXWired.parse_ble(&mut state, "T", "hip", "Magnetometer", "Aw==").model,
        TrackerModel::Wired
    );
    assert_eq!(
        HaritoraXWireless.parse_ble(&mut state, "T", "hip", "Magnetometer", "Aw==").model,
        TrackerModel::Wireless
    );
    assert_eq!(HaritoraX2.parse_serial(&mut state, "T", "hip", "o:0", 0).model, TrackerModel::X2);
    assert_eq!(HaritoraXWired.parse_serial(&mut state, "T", "hip", "o:0", 0).model, TrackerModel::Wired);
    let report = HaritoraXWireless.parse_serial(&mut state, "T", "hip", "a0:284128442f30", 0);
    assert_eq!(report.model, TrackerModel::Wireless);
    assert_eq!(report.effects.len(), 1);
}

#[test]
fn reports_are_built_in_order() {
    let mut report = Report::quiet(TrackerModel::X2);
    assert!(report.effects.is_empty());
    report.push(connect());
    report.push(Effect::Disconnect);
    assert_eq!(report.effects, vec![connect(), Effect::Disconnect]);
    assert_eq!(Report::single(TrackerModel::X2, connect()).effects, vec![connect()]);
    assert_eq!(Report::refusal(TrackerModel::X2, ErrorKind::NotFound).error, Some(ErrorKind::NotFound));
}

#[test]
fn effects_name_their_events() {
    let settings = SettingsData {
        sensor_mode: 1,
        fps_mode: 50,
        correct_accel: true,
        correct_gyro: false,
        correct_mag: true,
        ankle_enabled: false,
    };
    assert_eq!(settings.sensor_auto_correction(), vec!["accel", "mag"]);
    let link = ConnectionData { dongle_rssi: None, tracker_rssi: None };
    let battery = BatteryData { remaining: None, voltage: None, status: None };
    assert_eq!(connect().event_name(), Some("connect"));
    assert_eq!(Effect::Disconnect.event_name(), Some("disconnect"));
    assert_eq!(imu_effects(None, None)[0].event_name(), Some("imu"));
    assert_eq!(Effect::Mag(MagStatus::Bad).event_name(), Some("mag"));
    assert_eq!(Effect::Battery(battery).event_name(), Some("battery"));
    assert_eq!(Effect::Button(ButtonRole::Main).event_name(), Some("button"));
    assert_eq!(Effect::Settings(settings).event_name(), Some("settings"));
    assert_eq!(Effect::Connection(link).event_name(), Some("connection"));
    assert_eq!(Effect::AddTracker(setup()).event_name(), None);
    assert_eq!(Effect::ShutDownTracker.event_name(), None);
    assert_eq!(Effect::SendRotation(ROTATION).event_name(), None);
    assert_eq!(Effect::SendAcceleration(ACCELERATION).event_name(), None);
    assert_eq!(Effect::SendBattery { percent: 1, millivolts: 2 }.event_name(), None);
    let info = process_info(TrackerModel::X2, "{}");
    assert_eq!(info.effects[0].event_name(), Some("info"));
}

#[test]
fn frame_after_a_failed_creation_tries_again() {
    let mut state = BridgeState::new();
    let first = process_imu(&mut state, TrackerModel::Wireless, "T", "hip", ConnectionMode::Serial, &FRAME);
    assert_eq!(first.effects[0], Effect::AddTracker(setup()));
    assert!(creation_failed(&mut state.registry, "T"));
    let second = process_imu(&mut state, TrackerModel::Wireless, "T", "hip", ConnectionMode::Serial, &FRAME);
    assert_eq!(second, first);
    assert_eq!(state.registry.slot("T"), Some(false));
}
