//! The TLS identity of the server: the names it is made for, and the
//! fingerprint by which a companion device knows it.

use crate::error::Error;
use vstd::prelude::*;

verus! {

/// The names that a certificate for the host `hostname` is made for:
/// `localhost`, and the host in the domain `local`.
pub open spec fn alt_names(hostname: Seq<char>) -> Seq<Seq<char>> {
    seq!["localhost"@, hostname + ".local"@]
}

/// The values of a list of strings.
pub open spec fn text_views(texts: Seq<String>) -> Seq<Seq<char>> {
    texts.map_values(|text: String| text@)
}

/// The names that a certificate for the host `hostname` is made for.
pub fn subject_alt_names(hostname: &str) -> (r: Vec<String>)
    ensures
        text_views(r@) == alt_names(hostname@),
{
    let mut names: Vec<String> = Vec::new();
    names.push(String::from_str("localhost"));
    names.push(String::from_str(hostname).concat(".local"));
    assert(text_views(names@) =~= alt_names(hostname@));
    names
}

/// Whether a new identity has to be made: the certificate or its key is not
/// there.
pub fn needs_identity(cert_exists: bool, key_exists: bool) -> (r: bool)
    ensures
        r == (!cert_exists || !key_exists),
{
    !cert_exists || !key_exists
}

/// The SHA-256 digest of `data`.
pub uninterp spec fn sha256_of(data: Seq<u8>) -> Seq<u8>;

/// The first certificate in the PEM text `pem`, in DER; the text of the
/// failure where a section before it is damaged; `None` where the text holds
/// no certificate.
pub uninterp spec fn first_certificate_of(pem: Seq<u8>) -> Option<Result<Seq<u8>, Seq<char>>>;

/// What was found of a certificate, as a mathematical value.
pub open spec fn found_view(found: Option<Result<Vec<u8>, String>>) -> Option<
    Result<Seq<u8>, Seq<char>>,
> {
    match found {
        Some(Ok(der)) => Some(Ok(der@)),
        Some(Err(cause)) => Some(Err(cause@)),
        None => None,
    }
}

/// `sha2::Sha256::digest`: the SHA-256 digest, which has 32 bytes.
#[verifier::external_body]
fn sha256(data: &[u8]) -> (r: [u8; 32])
    ensures
        r@ == sha256_of(data@),
{
    <sha2::Sha256 as sha2::Digest>::digest(data).into()
}

/// `rustls_pemfile::certs`, read from memory, and the first item that its
/// iterator gives: a certificate in DER, or the failure as text.
#[verifier::external_body]
fn first_certificate(pem: &[u8]) -> (r: Option<Result<Vec<u8>, String>>)
    ensures
        found_view(r) == first_certificate_of(pem@),
{
    let mut reader = pem;
    let first = rustls_pemfile::certs(&mut reader).next();
    first.map(|found| found.map(|der| der.as_ref().to_vec()).map_err(|e| e.to_string()))
}

/// Whether `result` is the fingerprint of what was found of a certificate.
pub open spec fn is_fingerprint_of(
    result: Result<[u8; 32], Error>,
    found: Option<Result<Seq<u8>, Seq<char>>>,
) -> bool {
    match found {
        Some(Ok(der)) => result matches Ok(digest) && digest@ == sha256_of(der),
        Some(Err(cause)) => result matches Err(Error::Io(text)) && text@ == cause,
        None => result matches Err(Error::Other(text)) && text@ == "no certificate found"@,
    }
}

/// The fingerprint of what was found of a certificate: the SHA-256 digest of
/// its DER form.
pub fn fingerprint_of(found: Option<Result<Vec<u8>, String>>) -> (r: Result<[u8; 32], Error>)
    ensures
        is_fingerprint_of(r, found_view(found)),
{
    match found {
        Some(Ok(der)) => Ok(sha256(der.as_slice())),
        Some(Err(cause)) => Err(Error::Io(cause)),
        None => Err(Error::Other(String::from_str("no certificate found"))),
    }
}

/// The fingerprint of the first certificate in the PEM text `pem`.
pub fn cert_fingerprint_sha256(pem: &[u8]) -> (r: Result<[u8; 32], Error>)
    ensures
        is_fingerprint_of(r, first_certificate_of(pem@)),
{
    fingerprint_of(first_certificate(pem))
}

} // verus!
