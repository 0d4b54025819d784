use slimetora::buttons::button_role_of;
use slimetora::buttons::process_button_data;
use slimetora::buttons::ButtonMap;
use slimetora::buttons::DEBOUNCE_MS;
use slimetora::buttons::UNSEEN;
use slimetora::error::ErrorKind;
use slimetora::model::ButtonRole;

//                    0123456789
const IDLE: &str = "0000000000";
const MAIN: &str = "0000001000";
const SUB: &str = "0000000001";
const BOTH: &str = "0000002002";

fn settled_map() -> ButtonMap {
    let mut map = ButtonMap::new();
    process_button_data(&mut map, IDLE, None, 0).unwrap();
    map
}

fn slot(map: &ButtonMap, role: ButtonRole) -> (Option<u8>, Option<u64>) {
    (map.nibble(role), map.pressed_at(role))
}

#[test]
fn new_map_has_seen_nothing() {
    let map = ButtonMap::new();
    for role in [ButtonRole::Main, ButtonRole::Sub, ButtonRole::Tertiary] {
        assert_eq!(slot(&map, role), (Some(UNSEEN), None));
    }
    assert_eq!(UNSEEN, 255);
}

#[test]
fn bluetooth_buttons_by_characteristic() {
    let mut map = ButtonMap::new();
    assert_eq!(
        process_button_data(&mut map, "AQ==", Some("MainButton"), 5),
        Ok(Some(ButtonRole::Main))
    );
    assert_eq!(process_button_data(&mut map, "AQ==", Some("SubButton"), 5), Ok(Some(ButtonRole::Sub)));
    assert_eq!(
        process_button_data(&mut map, "", Some("TertiaryButton"), 5),
        Ok(Some(ButtonRole::Tertiary))
    );
    assert_eq!(
        process_button_data(&mut map, "AQ==", Some("Sensor"), 5),
        Err(ErrorKind::UnknownCharacteristic)
    );
    for role in [ButtonRole::Main, ButtonRole::Sub, ButtonRole::Tertiary] {
        assert_eq!(slot(&map, role), (Some(UNSEEN), None));
    }
}

#[test]
fn first_serial_frame_counts_as_a_change() {
    let mut map = ButtonMap::new();
    assert_eq!(process_button_data(&mut map, IDLE, None, 1000), Ok(Some(ButtonRole::Sub)));
    assert_eq!(slot(&map, ButtonRole::Main), (Some(0), Some(1000)));
    assert_eq!(slot(&map, ButtonRole::Sub), (Some(0), Some(1000)));
    assert_eq!(slot(&map, ButtonRole::Tertiary), (Some(255), None));
}

#[test]
fn serial_press_of_each_button() {
    let mut map = settled_map();
    assert_eq!(process_button_data(&mut map, MAIN, None, 100), Ok(Some(ButtonRole::Main)));
    assert_eq!(process_button_data(&mut map, MAIN, None, 200), Ok(None));
    assert_eq!(process_button_data(&mut map, "0000001001", None, 300), Ok(Some(ButtonRole::Sub)));
    assert_eq!(map.nibble(ButtonRole::Main), Some(1));
    assert_eq!(map.nibble(ButtonRole::Sub), Some(1));
}

#[test]
fn sub_button_wins_when_both_change() {
    let mut map = settled_map();
    assert_eq!(process_button_data(&mut map, BOTH, None, 100), Ok(Some(ButtonRole::Sub)));
    assert_eq!(slot(&map, ButtonRole::Main), (Some(2), Some(100)));
    assert_eq!(slot(&map, ButtonRole::Sub), (Some(2), Some(100)));
}

#[test]
fn second_press_within_debounce_is_dropped() {
    let mut map = settled_map();
    assert_eq!(process_button_data(&mut map, MAIN, None, 100), Ok(Some(ButtonRole::Main)));
    assert_eq!(process_button_data(&mut map, IDLE, None, 100 + DEBOUNCE_MS - 1), Ok(None));
    assert_eq!(slot(&map, ButtonRole::Main), (Some(1), Some(100)));
    assert_eq!(
        process_button_data(&mut map, IDLE, None, 100 + DEBOUNCE_MS),
        Ok(Some(ButtonRole::Main))
    );
    assert_eq!(slot(&map, ButtonRole::Main), (Some(0), Some(100 + DEBOUNCE_MS)));
}

#[test]
fn debounce_is_per_button() {
    let mut map = settled_map();
    assert_eq!(process_button_data(&mut map, MAIN, None, 100), Ok(Some(ButtonRole::Main)));
    assert_eq!(process_button_data(&mut map, "0000001001", None, 110), Ok(Some(ButtonRole::Sub)));
    assert_eq!(process_button_data(&mut map, SUB, None, 120), Ok(None));
    assert_eq!(map.nibble(ButtonRole::Main), Some(1));
}

#[test]
fn clock_that_runs_backwards_presses_nothing() {
    let mut map = settled_map();
    process_button_data(&mut map, MAIN, None, 500).unwrap();
    assert_eq!(process_button_data(&mut map, IDLE, None, 100), Ok(None));
}

#[test]
fn short_payload_reads_as_zero_nibbles() {
    let mut map = settled_map();
    assert_eq!(process_button_data(&mut map, "", None, 100), Ok(None));
    assert_eq!(process_button_data(&mut map, "000000z00y", None, 100), Ok(None));
    assert_eq!(process_button_data(&mut map, "000000F", None, 100), Ok(Some(ButtonRole::Main)));
    assert_eq!(map.nibble(ButtonRole::Main), Some(15));
}

#[test]
fn button_names_and_labels() {
    assert_eq!(button_role_of("MainButton"), Some(ButtonRole::Main));
    assert_eq!(button_role_of("SubButton"), Some(ButtonRole::Sub));
    assert_eq!(button_role_of("TertiaryButton"), Some(ButtonRole::Tertiary));
    assert_eq!(button_role_of("SecondaryButton"), None);
    assert_eq!(ButtonRole::Main.label(), "main");
    assert_eq!(ButtonRole::Sub.label(), "sub");
    assert_eq!(ButtonRole::Tertiary.label(), "tertiary");
}
