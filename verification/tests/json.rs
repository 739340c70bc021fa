use service_berry::json::{Json, JsonNumber, Member};

#[test]
fn parse_reads_scalars() {
    assert_eq!(Json::parse(b"null"), Some(Json::Null));
    assert_eq!(Json::parse(b" true "), Some(Json::Bool(true)));
    assert_eq!(Json::parse(b"17"), Some(Json::Number(JsonNumber::PosInt(17))));
    assert_eq!(Json::parse(b"-4"), Some(Json::Number(JsonNumber::NegInt(-4))));
    assert_eq!(
        Json::parse(b"1.5"),
        Some(Json::Number(JsonNumber::Float(1.5f64.to_bits())))
    );
    assert_eq!(Json::parse(b"\"gps\""), Some(Json::Text("gps".to_string())));
}

#[test]
fn parse_reads_containers() {
    let parsed = Json::parse(b"{\"a\":[1,null],\"b\":{}}");
    let expected = Json::Object(vec![
        Member {
            key: "a".to_string(),
            value: Json::Array(vec![Json::Number(JsonNumber::PosInt(1)), Json::Null]),
        },
        Member { key: "b".to_string(), value: Json::Object(vec![]) },
    ]);
    assert_eq!(parsed, Some(expected));
}

#[test]
fn parse_rejects_what_is_not_json() {
    assert_eq!(Json::parse(b""), None);
    assert_eq!(Json::parse(b"{\"position\":{"), None);
    assert_eq!(Json::parse(b"{} {}"), None);
    assert_eq!(Json::parse(&[0xff, 0xfe]), None);
}

#[test]
fn get_finds_the_member() {
    let object = Json::parse(b"{\"x\":1,\"y\":2}").unwrap();
    assert_eq!(object.get("y"), Some(&Json::Number(JsonNumber::PosInt(2))));
    assert_eq!(object.get("z"), None);
    assert_eq!(Json::Null.get("x"), None);
}

#[test]
fn clone_keeps_the_value() {
    let object = Json::parse(b"{\"x\":[1,{\"y\":\"t\"}]}").unwrap();
    assert_eq!(object.clone(), object);
}
