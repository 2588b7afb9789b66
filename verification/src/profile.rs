//! The profile of a player, as the profile service returns it, and the
//! address of the skin texture that it names.

use crate::codec::SourceFetchError;
use crate::json::json_string_at;
use crate::json::string_at;
use vstd::prelude::*;
use vstd::utf8::decode_utf8;
use vstd::utf8::valid_utf8;

verus! {

/// What `base64::decode` makes of a text: the bytes that it encodes in
/// the standard alphabet, `None` where it reports an error.
pub uninterp spec fn base64_decoded(text: Seq<char>) -> Option<Seq<u8>>;

/// `base64::DecodeError`, the error of `base64::decode`: carried to where
/// it is mapped to an error of this crate, never looked into.
#[verifier::external_type_specification]
#[verifier::external_body]
pub struct ExDecodeError(base64::DecodeError);

/// Calls `base64::decode`. Trusted: the bytes are the ones named
/// `base64_decoded`, and an error comes back exactly where that name is
/// `None`.
#[verifier::external_body]
fn base64_decode(text: &str) -> (r: Result<Vec<u8>, base64::DecodeError>)
    ensures
        match r {
            Ok(bytes) => base64_decoded(text@) == Some(bytes@),
            Err(_) => base64_decoded(text@) is None,
        },
{
    base64::decode(text)
}

/// Calls `std::str::from_utf8`. Trusted: the text is the one that the
/// bytes encode, and there is none exactly where the bytes are not UTF-8.
#[verifier::external_body]
fn utf8_text(bytes: &Vec<u8>) -> (r: Option<&str>)
    ensures
        match r {
            Some(text) => valid_utf8(bytes@) && text@ == decode_utf8(bytes@),
            None => !valid_utf8(bytes@),
        },
{
    std::str::from_utf8(bytes).ok()
}

/// Where a profile holds its first property's value.
pub open spec fn property_pointer() -> Seq<char> {
    "/properties/0/value"@
}

/// Where a decoded property holds the address of the skin texture.
pub open spec fn skin_url_pointer() -> Seq<char> {
    "/textures/SKIN/url"@
}

/// The document that a profile's first property holds: its value is
/// base64 for UTF-8 text.
pub open spec fn property_document(profile: Seq<char>) -> Option<Seq<char>> {
    match json_string_at(profile, property_pointer()) {
        Some(encoded) => match base64_decoded(encoded) {
            Some(bytes) => if valid_utf8(bytes) {
                Some(decode_utf8(bytes))
            } else {
                None
            },
            None => None,
        },
        None => None,
    }
}

/// The address of the skin texture that a profile names.
pub open spec fn skin_url_of(profile: Seq<char>) -> Option<Seq<char>> {
    match property_document(profile) {
        Some(document) => json_string_at(document, skin_url_pointer()),
        None => None,
    }
}

/// The address of the skin texture that a profile names; an error where
/// the profile does not hold one.
pub fn skin_url(profile: &str) -> (r: Result<String, SourceFetchError>)
    ensures
        match r {
            Ok(url) => skin_url_of(profile@) == Some(url@),
            Err(_) => skin_url_of(profile@) is None,
        },
{
    let encoded = match string_at(profile, "/properties/0/value") {
        Some(encoded) => encoded,
        None => return Err(SourceFetchError),
    };
    let bytes = match base64_decode(encoded.as_str()) {
        Ok(bytes) => bytes,
        Err(_) => return Err(SourceFetchError),
    };
    let document = match utf8_text(&bytes) {
        Some(document) => document,
        None => return Err(SourceFetchError),
    };
    match string_at(document, "/textures/SKIN/url") {
        Some(url) => Ok(url),
        None => Err(SourceFetchError),
    }
}

} // verus!
