//! The records exchanged with Twilio.
use vstd::prelude::*;

verus! {

/// The form posted to Twilio's message API (`To`, `From`, `Body`).
pub struct SendMessageRequest {
    pub to: String,
    pub from: String,
    pub body: String,
}

/// The form of an incoming-message webhook (`From`, `Body`, `MessageSid`).
pub struct WebhookRequest {
    pub from: String,
    pub body: String,
    pub message_sid: String,
}

/// A TwiML answer, with an optional message.
pub struct TwiMLResponse {
    pub message: Option<String>,
}

} // verus!
