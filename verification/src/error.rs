//! The error type of the relay.

use crate::json::{Json, JsonView, Member};
use crate::text::{decimal, decimal_text};
use vstd::prelude::*;

verus! {

/// What can go wrong in the relay. Each variant that wraps a failure of a
/// collaborator carries that failure's text.
#[derive(Debug, Clone, PartialEq, Eq)]
pub enum Error {
    // Scanner errors
    BleAdapter(String),
    WifiScan(String),
    InvalidSsid(String),
    // Submission errors
    Transport(String),
    HttpStatus { status: u16, body: String },
    Serialization(String),
    // Server errors
    Bind(String),
    // Configuration errors
    Config(String),
    // I/O and JSON syntax
    Io(String),
    Json(String),
    // Anything else
    Other(String),
}

/// The text that describes `e`.
pub open spec fn error_text(e: Error) -> Seq<char> {
    match e {
        Error::BleAdapter(msg) => "BLE adapter error: "@ + msg@,
        Error::WifiScan(msg) => "WiFi scan error: "@ + msg@,
        Error::InvalidSsid(msg) => "Invalid SSID: "@ + msg@,
        Error::Transport(msg) => "Transport error: "@ + msg@,
        Error::HttpStatus { status, body } => "HTTP "@ + decimal(status as nat) + ": "@ + body@,
        Error::Serialization(msg) => "Serialization error: "@ + msg@,
        Error::Bind(msg) => "Bind error: "@ + msg@,
        Error::Config(msg) => "Config error: "@ + msg@,
        Error::Io(msg) => "IO error: "@ + msg@,
        Error::Json(msg) => "JSON error: "@ + msg@,
        Error::Other(msg) => "Error: "@ + msg@,
    }
}

/// The body of the HTTP answer that reports `message`: an object with the
/// one member `error`.
pub open spec fn error_body(message: Seq<char>) -> JsonView {
    JsonView::Object(seq![("error"@, JsonView::Text(message))])
}

impl Error {
    /// Describes the error in one line.
    pub fn message(&self) -> (r: String)
        ensures
            r@ == error_text(*self),
    {
        match self {
            Error::BleAdapter(msg) => String::from_str("BLE adapter error: ").concat(msg.as_str()),
            Error::WifiScan(msg) => String::from_str("WiFi scan error: ").concat(msg.as_str()),
            Error::InvalidSsid(msg) => String::from_str("Invalid SSID: ").concat(msg.as_str()),
            Error::Transport(msg) => String::from_str("Transport error: ").concat(msg.as_str()),
            Error::HttpStatus { status, body } => {
                let number = decimal_text(*status as u128);
                String::from_str("HTTP ").concat(number.as_str()).concat(": ").concat(
                    body.as_str(),
                )
            },
            Error::Serialization(msg) => String::from_str("Serialization error: ").concat(
                msg.as_str(),
            ),
            Error::Bind(msg) => String::from_str("Bind error: ").concat(msg.as_str()),
            Error::Config(msg) => String::from_str("Config error: ").concat(msg.as_str()),
            Error::Io(msg) => String::from_str("IO error: ").concat(msg.as_str()),
            Error::Json(msg) => String::from_str("JSON error: ").concat(msg.as_str()),
            Error::Other(msg) => String::from_str("Error: ").concat(msg.as_str()),
        }
    }

    /// The HTTP status and body with which the server reports the error to
    /// a client: 500 for `Other`, an internal error, and 400 for `Bind`, a
    /// bad request, each with the text of the error in the body. No other
    /// error is ever reported to a client: for those the answer is `None`.
    pub fn response(&self) -> (r: Option<(u16, Json)>)
        ensures
            match *self {
                Error::Other(msg) => r matches Some(answer) && answer.0 == 500 && answer.1@
                    == error_body(msg@),
                Error::Bind(msg) => r matches Some(answer) && answer.0 == 400 && answer.1@
                    == error_body(msg@),
                _ => r is None,
            },
    {
        let (status, text): (u16, &String) = match self {
            Error::Other(msg) => (500, msg),
            Error::Bind(msg) => (400, msg),
            _ => return None,
        };
        let mut members: Vec<Member> = Vec::new();
        members.push(Member::new("error", Json::text(text.as_str())));
        let body = Json::object(members);
        assert(body@->Object_0 =~= seq![("error"@, JsonView::Text(text@))]);
        Some((status, body))
    }
}

} // verus!
