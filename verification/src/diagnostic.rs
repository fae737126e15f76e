//! Reading the device's verdict on a compile or link request.
//!
//! After a compile or a link the device answers a status query with an
//! integer flag. On failure it holds a diagnostic log, whose length it
//! reports with the terminating zero byte counted in. The functions here
//! decide from those raw answers whether the request succeeded and which
//! bytes of a fetched log are its text.

use vstd::prelude::*;
use vstd::utf8::{decode_utf8, valid_utf8};

verus! {

/// The flag value with which the device reports success.
pub const STATUS_TRUE: i32 = 1;

/// Whether a status flag reports success: only `STATUS_TRUE` does.
pub open spec fn is_success(status: i32) -> bool {
    status == STATUS_TRUE
}

/// Tests a status flag as `is_success` defines it.
pub fn succeeded(status: i32) -> (ok: bool)
    ensures
        ok == is_success(status),
{
    status == STATUS_TRUE
}

/// The number of text bytes in a log of reported length `reported`: one
/// less than reported, the terminator being dropped, and none where the
/// device reports no log at all.
pub open spec fn text_len(reported: i32) -> nat {
    if reported >= 1 {
        (reported - 1) as nat
    } else {
        0
    }
}

/// Computes `text_len`.
pub fn log_text_len(reported: i32) -> (n: usize)
    ensures
        n == text_len(reported),
{
    if reported >= 1 {
        (reported - 1) as usize
    } else {
        0
    }
}

/// The text bytes of a fetched log: the first `text_len(reported)` bytes of
/// the buffer, or the whole buffer where it is shorter than that.
pub open spec fn log_text(buffer: Seq<u8>, reported: i32) -> Seq<u8> {
    if text_len(reported) <= buffer.len() {
        buffer.take(text_len(reported) as int)
    } else {
        buffer
    }
}

/// Cuts a fetched log buffer down to its text bytes.
pub fn trim_log(buffer: Vec<u8>, reported: i32) -> (text: Vec<u8>)
    ensures
        text@ == log_text(buffer@, reported),
{
    let mut text = buffer;
    text.truncate(log_text_len(reported));
    text
}

/// Decodes bytes as UTF-8 text by calling `String::from_utf8`.
///
/// Trusted: the call succeeds exactly on well-formed UTF-8, and the string
/// it then returns holds the characters that those bytes encode.
#[verifier::external_body]
fn decode_text(bytes: Vec<u8>) -> (text: Option<String>)
    ensures
        text is Some <==> valid_utf8(bytes@),
        text matches Some(s) ==> s@ == decode_utf8(bytes@),
{
    String::from_utf8(bytes).ok()
}

/// The message that a fetched log buffer carries: its text bytes decoded as
/// UTF-8, or `None` where they are not well-formed UTF-8.
pub fn read_log(buffer: Vec<u8>, reported: i32) -> (message: Option<String>)
    ensures
        message is Some <==> valid_utf8(log_text(buffer@, reported)),
        message matches Some(s) ==> s@ == decode_utf8(log_text(buffer@, reported)),
{
    decode_text(trim_log(buffer, reported))
}

} // verus!
