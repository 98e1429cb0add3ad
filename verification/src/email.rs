//! The outbound email request handed to the dispatcher.

use vstd::prelude::*;

verus! {

/// One outbound send attempt: recipient address, subject, and the two bodies.
/// The dispatcher performs the send and reports success or failure.
#[derive(Debug)]
pub struct EmailRequest {
    pub recipient: String,
    pub subject: String,
    pub html_body: String,
    pub text_body: String,
}

} // verus!
