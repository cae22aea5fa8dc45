//! The crate's trusted boundary: the few outside calls the handshake logic
//! makes in the middle of its work, each behind a wrapper whose contract is
//! believed rather than proved.

use vstd::prelude::*;

verus! {

/// What the version-3 identifier derivation returns for a name under the DNS
/// namespace. The result depends on the characters of the name alone.
pub uninterp spec fn dns_name_uuid(name: Seq<char>) -> u128;

/// Relies on uuid::Uuid::new_v3 with Uuid::NAMESPACE_DNS: the result is an
/// MD5-based identifier computed from the fixed namespace and the given bytes
/// alone, so the same name always yields the same identifier.
#[verifier::external_body]
pub(crate) fn derive_dns_uuid(name: &str) -> (r: u128)
    ensures
        r == dns_name_uuid(name@),
{
    uuid::Uuid::new_v3(&uuid::Uuid::NAMESPACE_DNS, name.as_bytes()).as_u128()
}

/// Relies on rand::random: four bytes drawn from the thread-local generator.
/// Nothing is promised of their values.
#[verifier::external_body]
pub(crate) fn random_verify_token() -> (t: [u8; 4]) {
    rand::random()
}

/// Relies on String::from_utf8: it returns a string exactly when the bytes
/// are valid UTF-8, and then the string is those bytes decoded.
#[verifier::external_body]
pub(crate) fn bytes_to_utf8(data: Vec<u8>) -> (r: Option<String>)
    ensures
        r is Some <==> vstd::utf8::valid_utf8(data@),
        r matches Some(s) ==> s@ == vstd::utf8::decode_utf8(data@),
{
    match String::from_utf8(data) {
        Ok(s) => Some(s),
        Err(_) => None,
    }
}

} // verus!
