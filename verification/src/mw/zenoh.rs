//! How the Zenoh backend reports its failures.

use vstd::prelude::*;
use vstd::string::*;

use crate::error::MwError;
use crate::text::{contains_str, occurs_in};

verus! {

/// The message of the error reported when a put on `topic` fails with `detail`.
pub open spec fn put_failed_message(topic: Seq<char>, detail: Seq<char>) -> Seq<char> {
    "put failed on "@ + topic + ": "@ + detail
}

/// The error reported when a put on `topic` fails with `detail`.
pub fn put_failure(topic: &str, detail: &str) -> (r: MwError)
    ensures
        r matches MwError::Message(m) && m@ == put_failed_message(topic@, detail@),
{
    let head = "put failed on ";
    let sep = ": ";
    MwError::Message(head.to_owned().concat(topic).concat(sep).concat(detail))
}

/// The marker in a receive failure's description that the reply channel closed unanswered.
pub open spec fn closed_channel_marker() -> Seq<char> {
    "closed channel"@
}

/// The message reported when waiting for the reply of the service on `topic` fails with
/// `detail`: a closed channel means that no server answered.
pub open spec fn reply_wait_failed_message(topic: Seq<char>, detail: Seq<char>) -> Seq<char> {
    if occurs_in(closed_channel_marker(), detail) {
        "no response from service `"@ + topic + "` (server not running or topic mismatch): "@
            + detail
    } else {
        detail
    }
}

/// The error reported when waiting for the reply of the service on `topic` fails with `detail`.
pub fn reply_wait_failure(topic: &str, detail: &str) -> (r: MwError)
    ensures
        r matches MwError::Message(m) && m@ == reply_wait_failed_message(topic@, detail@),
{
    let marker = "closed channel";
    if contains_str(detail, marker) {
        let head = "no response from service `";
        let tail = "` (server not running or topic mismatch): ";
        MwError::Message(head.to_owned().concat(topic).concat(tail).concat(detail))
    } else {
        MwError::Message(detail.to_owned())
    }
}

/// The message reported when the service answers with an error carrying `payload`, whose
/// debug rendering is `rendered`.
pub open spec fn service_error_message(payload: Seq<u8>, rendered: Seq<char>) -> Seq<char> {
    if payload.len() == 0 {
        "service returned an error"@
    } else {
        "service error: "@ + rendered
    }
}

/// The error reported when the service answers with an error carrying `payload`.
pub fn service_error(payload: &Vec<u8>, rendered: &str) -> (r: MwError)
    ensures
        r matches MwError::Message(m) && m@ == service_error_message(payload@, rendered@),
{
    if payload.len() == 0 {
        MwError::Message("service returned an error".to_owned())
    } else {
        let head = "service error: ";
        MwError::Message(head.to_owned().concat(rendered))
    }
}

} // verus!
