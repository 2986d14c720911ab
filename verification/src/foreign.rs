//! What this library takes from other crates and from parts of the standard
//! library that have no specification of their own.
//!
//! Nothing in this file is proved. Each item says what it takes for granted.

use vstd::prelude::*;
use vstd::utf8::{decode_utf8, encode_utf8, valid_utf8};

use crate::text::{opt_text, Text};

verus! {

/// A JSON value of `serde_json`. The library carries such values through and
/// never looks inside them.
#[verifier::external_type_specification]
#[verifier::external_body]
pub struct ExJsonValue(serde_json::Value);

/// `Clone` for `serde_json::Value`, which the crate derives: the copy holds
/// what the value it was made from holds.
pub assume_specification[ <serde_json::Value as Clone>::clone ](
    value: &serde_json::Value,
) -> (copy: serde_json::Value)
    ensures
        copy == *value,
;

/// What `url::Url::parse` makes of a text: the URL in its normal form, or
/// nothing where the text is no absolute URL.
pub uninterp spec fn url_normal_form(text: Text) -> Option<Text>;

/// Parses `text` with `url::Url::parse` and hands back the parsed URL as
/// text. The parser decides by the text alone.
#[verifier::external_body]
pub(crate) fn normalized_url(text: &str) -> (normal: Option<String>)
    ensures
        opt_text(normal) == url_normal_form(text@),
{
    match url::Url::parse(text) {
        Ok(parsed) => Some(String::from(parsed)),
        Err(_) => None,
    }
}

/// The words with which `hyper::Uri` refuses a text as a request target, or
/// nothing where it accepts the text.
pub uninterp spec fn uri_rejection(text: Text) -> Option<Text>;

/// Parses `text` as a `hyper::Uri` and hands back the parser's complaint,
/// if it has one. The parser decides by the text alone.
#[verifier::external_body]
pub(crate) fn uri_error(text: &str) -> (error: Option<String>)
    ensures
        opt_text(error) == uri_rejection(text@),
{
    match text.parse::<hyper::Uri>() {
        Ok(_) => None,
        Err(refusal) => Some(refusal.to_string()),
    }
}

/// A byte that may stand in the value of an HTTP header: anything but the
/// control characters, the horizontal tab excepted.
pub open spec fn header_value_byte(byte: u8) -> bool {
    byte >= 32 && byte != 127 || byte == 9
}

/// A text that may stand as the value of an HTTP header: each byte of its
/// UTF-8 form may.
pub open spec fn header_value_accepted(value: Text) -> bool {
    forall|i: int|
        0 <= i < encode_utf8(value).len() ==> header_value_byte(#[trigger] encode_utf8(value)[i])
}

/// Makes a `hyper::header::HeaderValue` of `value` and hands back the
/// complaint, if there is one. The value is refused exactly when one of its
/// bytes is a control character other than the tab, and the complaint is
/// always the same sentence.
#[verifier::external_body]
pub(crate) fn header_value_error(value: &str) -> (error: Option<String>)
    ensures
        error is None <==> header_value_accepted(value@),
        error matches Some(words) ==> words@ == "failed to parse header value"@,
{
    match hyper::header::HeaderValue::from_str(value) {
        Ok(_) => None,
        Err(refusal) => Some(refusal.to_string()),
    }
}

/// `String::from_utf8`: the text that the bytes encode, where they are
/// well-formed UTF-8, and nothing where they are not.
#[verifier::external_body]
pub(crate) fn utf8_text(bytes: Vec<u8>) -> (text: Option<String>)
    ensures
        text is Some <==> valid_utf8(bytes@),
        text matches Some(t) ==> t@ == decode_utf8(bytes@),
{
    String::from_utf8(bytes).ok()
}

} // verus!
