use slimetora::gatt::characteristic_name;
use slimetora::gatt::characteristics;
use slimetora::gatt::is_haritora_name;
use slimetora::gatt::service_name;
use slimetora::gatt::services;
use slimetora::gatt::subscribable_characteristics;
use slimetora::gatt::supports_tracker_protocol;
use slimetora::gatt::BODY_PART_UUID;
use slimetora::gatt::MAIN_BUTTON_CHARACTERISTIC;
use slimetora::gatt::SENSOR_CHARACTERISTIC;
use slimetora::gatt::SUB_BUTTON_CHARACTERISTIC;
use slimetora::ble::SETTING_SERVICE;
use slimetora::ble::TRACKER_SERVICE;
use slimetora::util::normalize_uuid;

#[test]
fn characteristic_names() {
    assert_eq!(characteristics().len(), 26);
    assert_eq!(characteristic_name("2a19"), Some("BatteryLevel"));
    assert_eq!(characteristic_name("00dbf1c6-90aa-11ed-a1eb-0242ac120002"), Some("Sensor"));
    assert_eq!(characteristic_name("00dbf306-90aa-11ed-a1eb-0242ac120002"), Some("Magnetometer"));
    assert_eq!(characteristic_name("00dbf450-90aa-11ed-a1eb-0242ac120002"), Some("MainButton"));
    assert_eq!(characteristic_name("00dbf586-90aa-11ed-a1eb-0242ac120002"), Some("SubButton"));
    assert_eq!(characteristic_name("00dbf6a8-90aa-11ed-a1eb-0242ac120002"), Some("TertiaryButton"));
    assert_eq!(characteristic_name("ef843b54-90a9-11ed-a1eb-0242ac120002"), Some("BatteryVoltage"));
    assert_eq!(characteristic_name("ef843cb2-90a9-11ed-a1eb-0242ac120002"), Some("ChargeStatus"));
    assert_eq!(characteristic_name(BODY_PART_UUID), Some("BodyPartAssignment"));
    assert_eq!(characteristic_name("0c900df6-a85e-11ed-afa1-0242ac120002"), Some("Response"));
    assert_eq!(characteristic_name("2A19"), None);
    assert_eq!(characteristic_name(""), None);
}

#[test]
fn subscriptions() {
    let names: Vec<&str> = subscribable_characteristics().iter().map(|c| c.name).collect();
    assert_eq!(
        names,
        vec![
            "BatteryLevel",
            "Sensor",
            "Magnetometer",
            "MainButton",
            "SubButton",
            "TertiaryButton",
            "BatteryVoltage",
            "ChargeStatus",
        ]
    );
    for c in subscribable_characteristics() {
        assert!(c.subscribable);
        assert!(normalize_uuid(c.uuid).is_ok());
    }
    assert!(!names.contains(&"BodyPartAssignment"));
}

#[test]
fn every_uuid_of_the_tables_is_one() {
    for c in characteristics() {
        assert!(normalize_uuid(c.uuid).is_ok());
    }
    for (uuid, _) in services() {
        assert!(normalize_uuid(uuid).is_ok());
    }
}

#[test]
fn service_names() {
    assert_eq!(services().len(), 7);
    assert_eq!(service_name("1800"), Some("Generic Access"));
    assert_eq!(service_name("1801"), Some("Generic Attribute"));
    assert_eq!(service_name("180a"), Some("Device Information"));
    assert_eq!(service_name("180f"), Some("Battery Service"));
    assert_eq!(service_name("fe59"), Some("DFU Service"));
    assert_eq!(service_name("00dbec3a-90aa-11ed-a1eb-0242ac120002"), Some("Tracker Service"));
    assert_eq!(service_name("ef84369a-90a9-11ed-a1eb-0242ac120002"), Some("Setting Service"));
    assert_eq!(service_name("2a19"), None);
}

#[test]
fn constants_match_the_tables() {
    assert_eq!(normalize_uuid("00dbec3a-90aa-11ed-a1eb-0242ac120002"), Ok(TRACKER_SERVICE));
    assert_eq!(normalize_uuid("ef84369a-90a9-11ed-a1eb-0242ac120002"), Ok(SETTING_SERVICE));
    assert_eq!(normalize_uuid("00dbf1c6-90aa-11ed-a1eb-0242ac120002"), Ok(SENSOR_CHARACTERISTIC));
    assert_eq!(normalize_uuid("00dbf450-90aa-11ed-a1eb-0242ac120002"), Ok(MAIN_BUTTON_CHARACTERISTIC));
    assert_eq!(normalize_uuid("00dbf586-90aa-11ed-a1eb-0242ac120002"), Ok(SUB_BUTTON_CHARACTERISTIC));
}

#[test]
fn required_services_and_characteristics() {
    let services = vec![0x1800, TRACKER_SERVICE, SETTING_SERVICE];
    let characteristics =
        vec![SUB_BUTTON_CHARACTERISTIC, SENSOR_CHARACTERISTIC, 7, MAIN_BUTTON_CHARACTERISTIC];
    assert!(supports_tracker_protocol(&services, &characteristics));
    assert!(!supports_tracker_protocol(&vec![TRACKER_SERVICE], &characteristics));
    assert!(!supports_tracker_protocol(&vec![SETTING_SERVICE], &characteristics));
    assert!(!supports_tracker_protocol(&services, &vec![SENSOR_CHARACTERISTIC, MAIN_BUTTON_CHARACTERISTIC]));
    assert!(!supports_tracker_protocol(&services, &vec![SENSOR_CHARACTERISTIC, SUB_BUTTON_CHARACTERISTIC]));
    assert!(!supports_tracker_protocol(&services, &vec![MAIN_BUTTON_CHARACTERISTIC, SUB_BUTTON_CHARACTERISTIC]));
    assert!(!supports_tracker_protocol(&Vec::new(), &Vec::new()));
}

#[test]
fn haritora_names() {
    assert!(is_haritora_name("HaritoraXW-A1"));
    assert!(is_haritora_name("My Haritora"));
    assert!(!is_haritora_name("haritora"));
    assert!(!is_haritora_name("Unknown"));
    assert!(!is_haritora_name(""));
}
