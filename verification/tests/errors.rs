use service_berry::error::Error;
use service_berry::json::{Json, Member};

#[test]
fn message_names_each_kind_of_error() {
    assert_eq!(Error::BleAdapter("off".to_string()).message(), "BLE adapter error: off");
    assert_eq!(Error::WifiScan("busy".to_string()).message(), "WiFi scan error: busy");
    assert_eq!(Error::InvalidSsid("x".to_string()).message(), "Invalid SSID: x");
    assert_eq!(Error::Transport("reset".to_string()).message(), "Transport error: reset");
    assert_eq!(
        Error::HttpStatus { status: 404, body: "not found".to_string() }.message(),
        "HTTP 404: not found"
    );
    assert_eq!(
        Error::Serialization("bad".to_string()).message(),
        "Serialization error: bad"
    );
    assert_eq!(Error::Bind("in use".to_string()).message(), "Bind error: in use");
    assert_eq!(Error::Config("none".to_string()).message(), "Config error: none");
    assert_eq!(Error::Io("eof".to_string()).message(), "IO error: eof");
    assert_eq!(Error::Json("syntax".to_string()).message(), "JSON error: syntax");
    assert_eq!(Error::Other("oops".to_string()).message(), "Error: oops");
}

#[test]
fn response_reports_internal_errors_and_bad_requests() {
    let body = |text: &str| {
        Json::Object(vec![Member { key: "error".to_string(), value: Json::Text(text.to_string()) }])
    };
    assert_eq!(Error::Other("oops".to_string()).response(), Some((500, body("oops"))));
    assert_eq!(Error::Bind("in use".to_string()).response(), Some((400, body("in use"))));
    assert_eq!(Error::Transport("reset".to_string()).response(), None);
    assert_eq!(Error::Serialization("bad".to_string()).response(), None);
    assert_eq!(Error::HttpStatus { status: 404, body: String::new() }.response(), None);
}
