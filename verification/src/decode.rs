//! Turning a received payload into text.

use vstd::prelude::*;
use vstd::utf8::{decode_utf8, valid_utf8};
use crate::event::{DecodedEvent, EventView};

verus! {

/// The text shown in place of a payload that is not valid UTF-8.
pub open spec fn corrupted_text() -> Seq<char> {
    "Corrupted message"@
}

/// The text that a payload stands for: its UTF-8 decoding, or the
/// sentinel when the bytes are not UTF-8.
pub open spec fn payload_text(payload: Seq<u8>) -> Seq<char> {
    if valid_utf8(payload) {
        decode_utf8(payload)
    } else {
        corrupted_text()
    }
}

/// The event that a received message gives rise to. A message without a
/// payload gives none.
pub open spec fn message_event(payload: Option<Seq<u8>>) -> Option<EventView> {
    match payload {
        Some(bytes) => Some(EventView::IncomingText(payload_text(bytes))),
        None => None,
    }
}

/// Calls `String::from_utf8`. The standard library accepts exactly the byte
/// sequences that are well-formed UTF-8 and then returns the string made of
/// those bytes; this is stated with vstd's `valid_utf8` and `decode_utf8`.
/// The error value is dropped.
#[verifier::external_body]
fn string_from_utf8(bytes: Vec<u8>) -> (r: Option<String>)
    ensures
        r is Some <==> valid_utf8(bytes@),
        r matches Some(s) ==> s@ == decode_utf8(bytes@),
{
    match String::from_utf8(bytes) {
        Ok(s) => Some(s),
        Err(_) => None,
    }
}

/// Decodes a payload as UTF-8. Bytes that are not UTF-8 are not dropped:
/// they yield the sentinel text.
pub fn decode_payload(payload: Vec<u8>) -> (text: String)
    ensures
        text@ == payload_text(payload@),
{
    match string_from_utf8(payload) {
        Some(s) => s,
        None => "Corrupted message".to_owned(),
    }
}

/// The bytes of a payload that may be missing.
pub open spec fn payload_bytes(payload: Option<Vec<u8>>) -> Option<Seq<u8>> {
    match payload {
        Some(bytes) => Some(bytes@),
        None => None,
    }
}

/// The event for one message of the subscription stream: the decoded text
/// of its payload, and none for a message without payload.
pub fn incoming_event(payload: Option<Vec<u8>>) -> (event: Option<DecodedEvent>)
    ensures
        match event {
            Some(e) => message_event(payload_bytes(payload)) == Some(e@),
            None => message_event(payload_bytes(payload)) is None,
        },
{
    match payload {
        Some(bytes) => Some(DecodedEvent::IncomingText(decode_payload(bytes))),
        None => None,
    }
}

} // verus!
