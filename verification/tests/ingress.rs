use service_berry::error::Error;
use service_berry::geosubmit::{build_record, Position};
use service_berry::json::{Json, JsonNumber};
use service_berry::scanner::ScanReport;
use service_berry::server::handlers::{
    acknowledge, handle_request, handle_status, process_submit, PartialPayload, WaitOutcome,
    BAD_REQUEST, INGRESS_WAIT_SECS,
};

const BODY: &str = "{\"position\":{\"latitude\":1,\"longitude\":2,\"accuracy\":5,\"altitude\":0,\
    \"altitudeAccuracy\":0,\"heading\":0,\"speed\":0,\"source\":\"gps\"},\"cell_towers\":null}";

fn parse(text: &str) -> Json {
    Json::parse(text.as_bytes()).unwrap()
}

#[test]
fn a_submission_with_empty_scans_yields_one_record_without_cell_towers() {
    let observation = process_submit(&parse(BODY)).unwrap();
    let record = build_record(observation, ScanReport::empty(), 1_700_000_000_000);
    let wire = record.to_json();
    assert_eq!(wire.get("bluetoothBeacons"), Some(&Json::Array(vec![])));
    assert_eq!(wire.get("wifiAccessPoints"), Some(&Json::Array(vec![])));
    assert_eq!(wire.get("CellTowers"), None);
    let position = Position::from_json(parse(BODY).get("position").unwrap()).unwrap();
    assert_eq!(wire.get("position"), Some(&position.to_json()));
    assert_eq!(wire.get("timestamp"), Some(&Json::Number(JsonNumber::PosInt(1_700_000_000_000))));
    let (answer, _) = acknowledge(&WaitOutcome::Finished(Ok(())));
    assert_eq!(answer, "Successful");
}

#[test]
fn a_malformed_body_is_a_bad_request() {
    assert_eq!(BAD_REQUEST, 400);
    for body in [
        "null",
        "[]",
        "{}",
        "{\"cell_towers\":[]}",
        "{\"position\":null}",
        "{\"position\":{\"latitude\":1}}",
        "{\"position\":{\"latitude\":\"1\",\"longitude\":2,\"accuracy\":5,\"altitude\":0,\
          \"altitudeAccuracy\":0,\"heading\":0,\"speed\":0,\"source\":\"gps\"}}",
    ] {
        assert_eq!(process_submit(&parse(body)), Err(400), "{}", body);
    }
    let bad_towers = BODY.replace("\"cell_towers\":null", "\"cell_towers\":{}");
    assert_eq!(process_submit(&parse(&bad_towers)), Err(400));
    let bad_tower = BODY.replace("\"cell_towers\":null", "\"cell_towers\":[{\"cellId\":1}]");
    assert_eq!(process_submit(&parse(&bad_tower)), Err(400));
}

#[test]
fn other_members_of_the_body_are_kept_and_not_looked_into() {
    let body = BODY.replace("\"cell_towers\":null", "\"cell_towers\":[],\"zeta\":{\"latitude\":\"?\"}");
    let observation = process_submit(&parse(&body)).unwrap();
    assert_eq!(observation.cell_towers, Some(vec![]));
    let payload = PartialPayload::from_json(&parse(&body)).unwrap();
    assert_eq!(payload.extra.len(), 1);
    assert_eq!(payload.extra[0].key, "zeta");
    assert_eq!(
        PartialPayload::from_json(&parse("[]")),
        Err(Error::Serialization("invalid or missing field: position".to_string()))
    );
}

#[test]
fn the_answer_acknowledges_the_assembly_however_the_delivery_went() {
    assert_eq!(INGRESS_WAIT_SECS, 3);
    assert_eq!(
        acknowledge(&WaitOutcome::Finished(Ok(()))),
        ("Successful".to_string(), "Successfully sent geolocation data".to_string())
    );
    assert_eq!(
        acknowledge(&WaitOutcome::Finished(Err(Error::HttpStatus {
            status: 500,
            body: "down".to_string()
        }))),
        ("Successful".to_string(), "Geosubmit error: HTTP 500: down".to_string())
    );
    assert_eq!(
        acknowledge(&WaitOutcome::Panicked("boom".to_string())),
        ("Successful".to_string(), "Task panicked: boom".to_string())
    );
    assert_eq!(
        acknowledge(&WaitOutcome::TimedOut),
        (
            "Successful".to_string(),
            "Request took too long, not waiting for status...".to_string()
        )
    );
}

#[test]
fn the_probes_answer_ok() {
    assert_eq!(handle_status(), Ok("ok".to_string()));
    assert_eq!(handle_request(), Ok("ok".to_string()));
}
