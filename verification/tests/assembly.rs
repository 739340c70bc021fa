use service_berry::error::Error;
use service_berry::geosubmit::client::Observation;
use service_berry::geosubmit::{
    assemble_at, assemble_geo_payload, build_record, items, parse_observation, CellTower, Position,
};
use service_berry::json::{Json, JsonNumber};
use service_berry::scanner::{BleDevice, ScanReport, WifiBssid};

const POSITION: &str = "{\"latitude\":1,\"longitude\":2,\"accuracy\":5,\"altitude\":0,\
    \"altitudeAccuracy\":0,\"heading\":0,\"speed\":0,\"source\":\"gps\"}";

const TOWERS: &str = "[{\"radioType\":\"gsm\",\"mobileCountryCode\":262,\"mobileNetworkCode\":1,\
    \"locationAreaCode\":5126,\"cellId\":16504}]";

fn parse(text: &str) -> Json {
    Json::parse(text.as_bytes()).unwrap()
}

fn position() -> Position {
    Position::from_json(&parse(POSITION)).unwrap()
}

fn towers() -> Vec<CellTower> {
    service_berry::geosubmit::payload::cell_towers_from_json(&parse(TOWERS)).unwrap()
}

fn scans() -> ScanReport {
    ScanReport {
        wifi: vec![WifiBssid { mac_address: "01:23:45:67:89:ab".to_string(), signal_strength: None }],
        ble: vec![BleDevice { mac_address: [1, 2, 3, 4, 5, 6], rssi: Some(-70), name: None }],
        wifi_elapsed_ms: 40,
        ble_elapsed_ms: 5000,
    }
}

fn missing(name: &str) -> Error {
    Error::Serialization(format!("invalid or missing field: {}", name))
}

#[test]
fn assembly_puts_the_record_together() {
    let record = assemble_at(&parse(POSITION), Some(&parse(TOWERS)), scans(), 1_700_000_000_123);
    assert_eq!(
        record,
        Ok(items {
            timestamp: 1_700_000_000_123,
            position: position(),
            bluetoothBeacons: scans().ble,
            wifiAccessPoints: scans().wifi,
            CellTowers: Some(towers()),
        })
    );
}

#[test]
fn assembly_succeeds_with_empty_scans() {
    let record = assemble_at(&parse(POSITION), None, ScanReport::empty(), 7).unwrap();
    assert_eq!(record.position, position());
    assert_eq!(record.bluetoothBeacons, vec![]);
    assert_eq!(record.wifiAccessPoints, vec![]);
    assert_eq!(record.CellTowers, None);
    assert_eq!(record.timestamp, 7);
}

#[test]
fn assembly_does_not_depend_on_the_scans() {
    let full = assemble_at(&parse(POSITION), Some(&parse(TOWERS)), scans(), 7).unwrap();
    let bare = assemble_at(&parse(POSITION), Some(&parse(TOWERS)), ScanReport::empty(), 7).unwrap();
    assert_eq!(full.position, bare.position);
    assert_eq!(full.CellTowers, bare.CellTowers);
    let bad = parse("{\"latitude\":1}");
    assert_eq!(assemble_at(&bad, None, scans(), 7), Err(missing("longitude")));
    assert_eq!(assemble_at(&bad, None, ScanReport::empty(), 7), Err(missing("longitude")));
}

#[test]
fn assembly_fails_on_malformed_caller_data_only() {
    assert_eq!(assemble_at(&Json::Null, None, scans(), 7), Err(missing("latitude")));
    assert_eq!(
        assemble_at(&parse(POSITION), Some(&Json::Null), scans(), 7),
        Err(missing("cellTowers"))
    );
    assert_eq!(
        assemble_at(&parse(POSITION), Some(&parse("[{}]")), scans(), 7),
        Err(missing("mobileCountryCode"))
    );
    assert_eq!(
        assemble_at(&parse("{}"), Some(&parse("[{}]")), scans(), 7),
        Err(missing("latitude"))
    );
}

#[test]
fn parse_observation_reads_the_callers_part() {
    assert_eq!(
        parse_observation(&parse(POSITION), Some(&parse(TOWERS))),
        Ok(Observation { position: position(), cell_towers: Some(towers()) })
    );
    assert_eq!(
        parse_observation(&parse(POSITION), None),
        Ok(Observation { position: position(), cell_towers: None })
    );
    assert_eq!(parse_observation(&parse("[]"), None), Err(missing("latitude")));
}

#[test]
fn build_record_keeps_the_callers_towers_as_they_came() {
    let observation = Observation { position: position(), cell_towers: Some(vec![]) };
    let record = build_record(observation, scans(), 9);
    assert_eq!(record.CellTowers, Some(vec![]));
    assert_eq!(record.timestamp, 9);
    assert_eq!(record.wifiAccessPoints, scans().wifi);
    assert_eq!(record.bluetoothBeacons, scans().ble);
}

#[test]
fn the_time_stamp_comes_from_the_clock() {
    let before = std::time::SystemTime::now()
        .duration_since(std::time::UNIX_EPOCH)
        .unwrap()
        .as_millis();
    let record = assemble_geo_payload(&parse(POSITION), None, ScanReport::empty()).unwrap();
    let after = std::time::SystemTime::now()
        .duration_since(std::time::UNIX_EPOCH)
        .unwrap()
        .as_millis();
    assert!(before <= record.timestamp && record.timestamp <= after);
    assert_eq!(record.position, position());
    assert_eq!(
        assemble_geo_payload(&parse("{}"), None, ScanReport::empty()),
        Err(missing("latitude"))
    );
}

#[test]
fn the_record_goes_on_the_wire_in_the_shape_of_the_interface() {
    let record = assemble_at(&parse(POSITION), Some(&parse(TOWERS)), scans(), 1234).unwrap();
    let wire = record.to_json();
    let names: Vec<&str> = match &wire {
        Json::Object(members) => members.iter().map(|m| m.key.as_str()).collect(),
        _ => panic!("not an object"),
    };
    assert_eq!(
        names,
        vec!["timestamp", "position", "bluetoothBeacons", "wifiAccessPoints", "CellTowers"]
    );
    assert_eq!(wire.get("timestamp"), Some(&Json::Number(JsonNumber::PosInt(1234))));
    assert_eq!(wire.get("position"), Some(&position().to_json()));
    assert_eq!(
        wire.get("bluetoothBeacons"),
        Some(&Json::Array(vec![scans().ble[0].to_json()]))
    );
    assert_eq!(
        wire.get("wifiAccessPoints"),
        Some(&Json::Array(vec![scans().wifi[0].to_json()]))
    );
    assert_eq!(wire.get("CellTowers"), Some(&Json::Array(vec![towers()[0].to_json()])));
}

#[test]
fn the_record_on_the_wire_leaves_out_absent_cell_towers() {
    let record = assemble_at(&parse(POSITION), None, ScanReport::empty(), 1).unwrap();
    let wire = record.to_json();
    assert_eq!(wire.get("bluetoothBeacons"), Some(&Json::Array(vec![])));
    assert_eq!(wire.get("wifiAccessPoints"), Some(&Json::Array(vec![])));
    assert_eq!(wire.get("CellTowers"), None);
    assert_eq!(wire.get("cellTowers"), None);
    let huge = items { timestamp: u128::MAX, ..record };
    assert_eq!(huge.to_json().get("timestamp"), Some(&Json::Number(JsonNumber::PosInt(u128::MAX))));
}
