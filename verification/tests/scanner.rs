use service_berry::error::Error;
use service_berry::json::{Json, JsonNumber, Member};
use service_berry::scanner::bluetooth::{fetch_ble_devices, BleScan, Discovered, Properties};
use service_berry::scanner::{collect_scans, degrade, BleDevice, ScanReport, WifiBssid};

fn beacon() -> BleDevice {
    BleDevice { mac_address: [0x2a, 0xcc, 0x00, 0x34, 0xfa, 0x00], rssi: Some(-61), name: None }
}

fn access_point() -> WifiBssid {
    WifiBssid { mac_address: "01:23:45:67:89:ab".to_string(), signal_strength: Some(-50) }
}

fn member(key: &str, value: Json) -> Member {
    Member { key: key.to_string(), value }
}

#[test]
fn a_failed_bluetooth_scan_reports_nothing() {
    assert_eq!(fetch_ble_devices(&BleScan::ManagerError("no dbus".to_string())), vec![]);
    assert_eq!(fetch_ble_devices(&BleScan::NoAdapter), vec![]);
    assert_eq!(fetch_ble_devices(&BleScan::ScanFailed("busy".to_string())), vec![]);
    assert_eq!(fetch_ble_devices(&BleScan::Found(vec![])), vec![]);
}

#[test]
fn a_bluetooth_scan_reports_the_devices_whose_properties_it_read() {
    let scan = BleScan::Found(vec![
        Discovered {
            address: [1, 2, 3, 4, 5, 6],
            properties: Some(Properties { rssi: Some(-40), local_name: Some("tag".to_string()) }),
        },
        Discovered { address: [9, 9, 9, 9, 9, 9], properties: None },
        Discovered {
            address: [6, 5, 4, 3, 2, 1],
            properties: Some(Properties { rssi: None, local_name: Some(String::new()) }),
        },
        Discovered {
            address: [7, 7, 7, 7, 7, 7],
            properties: Some(Properties { rssi: Some(3), local_name: None }),
        },
    ]);
    assert_eq!(
        fetch_ble_devices(&scan),
        vec![
            BleDevice { mac_address: [1, 2, 3, 4, 5, 6], rssi: Some(-40), name: Some("tag".to_string()) },
            BleDevice { mac_address: [6, 5, 4, 3, 2, 1], rssi: None, name: None },
            BleDevice { mac_address: [7, 7, 7, 7, 7, 7], rssi: Some(3), name: None },
        ]
    );
}

#[test]
fn mac_string_writes_capital_hexadecimal_with_colons() {
    assert_eq!(beacon().mac_string(), "2A:CC:00:34:FA:00");
    let device = BleDevice { mac_address: [0xff, 0x0f, 0xf0, 0x9a, 0xa9, 0x10], rssi: None, name: None };
    assert_eq!(device.mac_string(), "FF:0F:F0:9A:A9:10");
}

#[test]
fn a_bluetooth_device_goes_on_the_wire_without_what_it_lacks() {
    assert_eq!(
        beacon().to_json(),
        Json::Object(vec![
            member("macAddress", Json::Text("2A:CC:00:34:FA:00".to_string())),
            member("signalStrength", Json::Number(JsonNumber::NegInt(-61))),
        ])
    );
    let named = BleDevice { rssi: None, name: Some("tag".to_string()), ..beacon() };
    assert_eq!(
        named.to_json(),
        Json::Object(vec![
            member("macAddress", Json::Text("2A:CC:00:34:FA:00".to_string())),
            member("name", Json::Text("tag".to_string())),
        ])
    );
    let strong = BleDevice { rssi: Some(4), ..beacon() };
    assert_eq!(strong.to_json().get("signalStrength"), Some(&Json::Number(JsonNumber::PosInt(4))));
}

#[test]
fn an_access_point_goes_on_the_wire() {
    assert_eq!(
        access_point().to_json(),
        Json::Object(vec![
            member("macAddress", Json::Text("01:23:45:67:89:ab".to_string())),
            member("signalStrength", Json::Number(JsonNumber::NegInt(-50))),
        ])
    );
    let silent = WifiBssid { signal_strength: None, ..access_point() };
    assert_eq!(
        silent.to_json(),
        Json::Object(vec![member("macAddress", Json::Text("01:23:45:67:89:ab".to_string()))])
    );
}

#[test]
fn degrade_turns_a_failure_into_the_empty_list() {
    assert_eq!(degrade(Ok(vec![1u8, 2])), vec![1, 2]);
    assert_eq!(degrade::<u8>(Err(Error::WifiScan("down".to_string()))), Vec::<u8>::new());
}

#[test]
fn a_wifi_failure_leaves_the_bluetooth_list_alone() {
    let report = collect_scans(
        Err(Error::WifiScan("no interface".to_string())),
        12,
        Ok(vec![beacon()]),
        5003,
    );
    assert_eq!(
        report,
        ScanReport { wifi: vec![], ble: vec![beacon()], wifi_elapsed_ms: 12, ble_elapsed_ms: 5003 }
    );
}

#[test]
fn a_bluetooth_failure_leaves_the_wifi_list_alone() {
    let report = collect_scans(
        Ok(vec![access_point()]),
        800,
        Err(Error::BleAdapter("powered off".to_string())),
        3,
    );
    assert_eq!(
        report,
        ScanReport { wifi: vec![access_point()], ble: vec![], wifi_elapsed_ms: 800, ble_elapsed_ms: 3 }
    );
}

#[test]
fn both_scans_may_fail_or_succeed() {
    let none = collect_scans(
        Err(Error::WifiScan("a".to_string())),
        0,
        Err(Error::BleAdapter("b".to_string())),
        0,
    );
    assert_eq!(none, ScanReport::empty());
    let both = collect_scans(Ok(vec![access_point()]), 1, Ok(vec![beacon()]), 2);
    assert_eq!(both.wifi, vec![access_point()]);
    assert_eq!(both.ble, vec![beacon()]);
}

#[test]
fn latency_is_that_of_the_longer_scan() {
    let report = |wifi, ble| ScanReport { wifi_elapsed_ms: wifi, ble_elapsed_ms: ble, ..ScanReport::empty() };
    assert_eq!(report(12, 5003).latency_ms(), 5003);
    assert_eq!(report(5003, 12).latency_ms(), 5003);
    assert_eq!(report(7, 7).latency_ms(), 7);
    assert_eq!(ScanReport::empty().latency_ms(), 0);
}
