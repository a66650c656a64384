//! The `show_notification` command endpoint: fixes the title/body request
//! handed to the host's notification center, and formats the error surfaced
//! when the notification subsystem rejects the request. Displaying the
//! notification itself is left to the surrounding program.

use vstd::prelude::*;
use vstd::string::StringExecFns;

verus! {

/// A notification request: the title and body handed to the host OS
/// notification center.
#[derive(Clone, Debug)]
pub struct NotificationRequest {
    pub title: String,
    pub body: String,
}

/// Builds the notification request for a title and body, both passed
/// through untouched.
pub fn notification_request(title: &str, body: &str) -> (r: NotificationRequest)
    ensures
        r.title@ == title@,
        r.body@ == body@,
{
    NotificationRequest { title: String::from_str(title), body: String::from_str(body) }
}

/// The error message returned when the notification subsystem rejects the
/// request: the fixed prefix followed by the subsystem's own description.
/// Never empty.
pub fn notification_error_message(detail: &str) -> (m: String)
    ensures
        m@ == "Failed to show notification: "@ + detail@,
        m@.len() > 0,
{
    proof {
        reveal_strlit("Failed to show notification: ");
    }
    let mut m = String::from_str("Failed to show notification: ");
    m.append(detail);
    m
}

} // verus!
