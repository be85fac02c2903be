use vstd::prelude::*;
use crate::event::PollEvent;

verus! {

/// The characters that a byte sequence decodes to, if it is valid text.
///
/// This names the result of `std::str::from_utf8`: whether a byte sequence
/// is valid text, and which characters it decodes to, depend on the bytes
/// alone.
pub uninterp spec fn utf8_of(bytes: Seq<u8>) -> Option<Seq<char>>;

/// Relies on `std::str::from_utf8` for the decode step: payload bytes either
/// form valid text and yield their decoded characters, or are rejected.
#[verifier::external_body]
pub(crate) fn decode_utf8(bytes: &Vec<u8>) -> (r: Option<String>)
    ensures
        match r {
            Some(text) => utf8_of(bytes@) == Some(text@),
            None => utf8_of(bytes@) is None,
        },
{
    match std::str::from_utf8(bytes.as_slice()) {
        Ok(text) => Some(text.to_string()),
        Err(_) => None,
    }
}

/// What one poll result contributes to the output stream: the decoded text
/// of its payload, or nothing. Errors, empty-payload messages and the
/// no-result marker never contribute; a payload contributes exactly when the
/// decode step accepts it.
pub open spec fn decode_event(e: PollEvent) -> Option<Seq<char>> {
    match e {
        PollEvent::Payload(p) => utf8_of(p@),
        _ => None,
    }
}

/// The records that a sequence of poll results yields once decoded, in
/// order: the decoded text of each payload the decode step accepts.
pub open spec fn emitted_records(events: Seq<PollEvent>) -> Seq<Seq<char>>
    decreases events.len(),
{
    if events.len() == 0 {
        Seq::empty()
    } else {
        let rest = emitted_records(events.drop_last());
        match decode_event(events.last()) {
            Some(text) => rest.push(text),
            None => rest,
        }
    }
}

} // verus!
