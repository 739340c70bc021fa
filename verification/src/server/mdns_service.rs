//! What the server publishes of itself on the local network.

use vstd::prelude::*;

verus! {

/// The endpoints of the server, as they are published.
pub const PUBLISHED_PATHS: &'static str = "/submit, /status, /request";

/// The character of the hexadecimal digit `d`, a small letter for ten and
/// above.
pub open spec fn hex_lower(d: nat) -> char {
    if d < 10 {
        (('0' as u8) + d) as char
    } else {
        (('a' as u8) + (d - 10)) as char
    }
}

/// The bytes of `data` in hexadecimal: two digits for each byte, with small
/// letters.
pub open spec fn hex_of(data: Seq<u8>) -> Seq<char>
    decreases data.len(),
{
    if data.len() == 0 {
        seq![]
    } else {
        hex_of(data.drop_last()) + seq![
            hex_lower(data.last() as nat / 16),
            hex_lower(data.last() as nat % 16),
        ]
    }
}

/// `hex::encode`: each byte becomes two hexadecimal digits, the high one
/// first, with small letters.
#[verifier::external_body]
fn hex_encode(data: &[u8]) -> (r: String)
    ensures
        r@ == hex_of(data@),
{
    hex::encode(data)
}

/// The properties published with the service: the version, the endpoints
/// and the fingerprint of the certificate in hexadecimal.
pub open spec fn properties_of(version: Seq<char>, cert_fingerprint: Seq<u8>) -> Seq<
    (Seq<char>, Seq<char>),
> {
    seq![
        ("version"@, version),
        ("paths"@, PUBLISHED_PATHS@),
        ("cert_fingerprint"@, hex_of(cert_fingerprint)),
    ]
}

/// The values of a list of properties.
pub open spec fn property_views(properties: Seq<(String, String)>) -> Seq<(Seq<char>, Seq<char>)> {
    properties.map_values(|property: (String, String)| (property.0@, property.1@))
}

/// The properties published with the service.
pub fn service_properties(version: &str, cert_fingerprint: &[u8]) -> (r: Vec<(String, String)>)
    ensures
        property_views(r@) == properties_of(version@, cert_fingerprint@),
{
    let mut properties: Vec<(String, String)> = Vec::new();
    properties.push((String::from_str("version"), String::from_str(version)));
    properties.push((String::from_str("paths"), String::from_str(PUBLISHED_PATHS)));
    properties.push((String::from_str("cert_fingerprint"), hex_encode(cert_fingerprint)));
    assert(property_views(properties@) =~= properties_of(version@, cert_fingerprint@));
    properties
}

/// The name under which the host `hostname` is published: the host in the
/// domain `local`, with the dot of the root.
pub fn published_name(hostname: &str) -> (r: String)
    ensures
        r@ == hostname@ + ".local."@,
{
    String::from_str(hostname).concat(".local.")
}

} // verus!
