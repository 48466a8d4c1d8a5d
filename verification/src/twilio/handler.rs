//! The decisions of the WhatsApp handlers: sending a message and storing
//! it, and storing a message that Twilio's webhook delivers. The HTTP
//! exchange and the database queries are made by the caller.
use vstd::prelude::*;
use vstd::string::*;
use crate::admin::{body_reply, outcome_view, db_failure};
use crate::auth::dto::AuthToken;
use crate::http::{header, message_error, Header, HttpError, Reply, ReplyView, INTERNAL_SERVER_ERROR, OK};
use crate::ids::new_uuid_v4;
use crate::models::users::is_v4;
use crate::twilio::client::TwilioClient;

verus! {

/// The JSON body of a send request.
pub struct SendWhatsAppRequest {
    pub to: String,
    pub message: String,
}

/// A message row to insert; its creation time is the database's default.
pub struct NewMessage {
    pub id: u128,
    pub user_id: u128,
    pub texto: String,
    pub recebido: bool,
}

/// Sends messages of users through Twilio and records them.
pub struct TwilioHandler {
    pub client: TwilioClient,
}

/// What sending a user's message asks for next, or its outcome.
pub enum SendWhatsAppStep {
    /// Deliver `message` to `to` through the client.
    Deliver { to: String, message: String },
    /// Record this message.
    Record(NewMessage),
    /// The outcome.
    Done(Result<(), HttpError>),
}

impl TwilioHandler {
    /// A handler around the client, or the reason the client could not be made.
    pub fn new(client: Result<TwilioClient, String>) -> (r: Result<TwilioHandler, String>)
        ensures
            client matches Err(e) ==> (r matches Err(m) && m@ == e@),
            client is Ok <==> r is Ok,
    {
        match client {
            Err(e) => Err(e),
            Ok(client) => Ok(TwilioHandler { client }),
        }
    }

    /// Sending starts by delivering the message through Twilio.
    pub fn send_whatsapp(&self, to: String, message: String) -> (r: SendWhatsAppStep)
        ensures
            r matches SendWhatsAppStep::Deliver { to: t, message: m } && t@ == to@ && m@ == message@,
    {
        SendWhatsAppStep::Deliver { to, message }
    }

    /// After delivery: a failed delivery is a 500 error with its reason;
    /// a delivered message is recorded for `user_id` as sent, with a
    /// fresh random id.
    pub fn after_delivery(&self, user_id: u128, message: String, delivered: Result<(), String>) -> (r: SendWhatsAppStep)
        ensures
            delivered matches Err(e) ==> (r matches SendWhatsAppStep::Done(Err(x)) && x@ == (INTERNAL_SERVER_ERROR, Some(e@))),
            delivered is Ok ==> (r matches SendWhatsAppStep::Record(n) && n.user_id == user_id
                && n.texto@ == message@ && !n.recebido && is_v4(n.id)),
    {
        match delivered {
            Err(e) => SendWhatsAppStep::Done(Err(message_error(INTERNAL_SERVER_ERROR, e))),
            Ok(()) => SendWhatsAppStep::Record(NewMessage { id: new_uuid_v4(), user_id, texto: message, recebido: false }),
        }
    }

    /// After recording: done, or a 500 error with the query's error.
    pub fn after_record(&self, recorded: Result<(), String>) -> (r: SendWhatsAppStep)
        ensures
            recorded matches Err(e) ==> (r matches SendWhatsAppStep::Done(Err(x)) && x@ == (INTERNAL_SERVER_ERROR, Some(e@))),
            recorded is Ok ==> r matches SendWhatsAppStep::Done(Ok(_)),
    {
        match recorded {
            Err(e) => SendWhatsAppStep::Done(Err(message_error(INTERNAL_SERVER_ERROR, e))),
            Ok(()) => SendWhatsAppStep::Done(Ok(())),
        }
    }
}

/// The message that the webhook records: the received text, as received,
/// under fresh random ids (the user id is a placeholder).
pub fn webhook_message(body: String) -> (r: NewMessage)
    ensures
        r.texto@ == body@ && r.recebido && is_v4(r.id) && is_v4(r.user_id),
{
    NewMessage { id: new_uuid_v4(), user_id: new_uuid_v4(), texto: body, recebido: true }
}

/// The empty TwiML document that answers the webhook.
pub open spec fn empty_twiml() -> Seq<char> {
    "<?xml version=\"1.0\" encoding=\"UTF-8\"?><Response></Response>"@
}

/// The webhook's reply once the message was recorded: the empty TwiML
/// document, or a 500 error with the query's error.
pub fn webhook_handler(recorded: Result<(), String>) -> (r: Result<Reply, HttpError>)
    ensures
        recorded matches Err(e) ==> outcome_view(r) == db_failure(e@),
        recorded is Ok ==> outcome_view(r) == Ok::<ReplyView, (u16, Option<Seq<char>>)>(ReplyView {
            status: OK, headers: seq![("content-type"@, "text/xml"@)], body: empty_twiml() }),
{
    match recorded {
        Err(e) => Err(message_error(INTERNAL_SERVER_ERROR, e)),
        Ok(()) => {
            let mut headers: Vec<Header> = Vec::new();
            headers.push(header("content-type", "text/xml"));
            let rep = Reply {
                status: OK,
                headers,
                body: String::from_str("<?xml version=\"1.0\" encoding=\"UTF-8\"?><Response></Response>"),
            };
            assert(rep@.headers =~= seq![("content-type"@, "text/xml"@)]);
            Ok(rep)
        },
    }
}

/// What the send endpoint asks for next, or its outcome.
pub enum SendWhatsAppHandlerStep {
    /// Look up the id of the user with this e-mail.
    FindUser(String),
    /// Send through the handler for this user.
    Send { user_id: u128, to: String, message: String },
    /// The endpoint's outcome.
    Done(Result<Reply, HttpError>),
}

/// The send endpoint for an authenticated session: a client that could
/// not be made is a 500 error with its reason; otherwise the session's
/// user is looked up by e-mail.
pub fn send_whatsapp_handler(auth: &AuthToken, handler_made: &Result<TwilioHandler, String>) -> (r: SendWhatsAppHandlerStep)
    ensures
        handler_made matches Err(e) ==> (r matches SendWhatsAppHandlerStep::Done(d) && outcome_view(d) == db_failure(e@)),
        handler_made is Ok ==> (r matches SendWhatsAppHandlerStep::FindUser(email) && email@ == auth.claims.sub@),
{
    match handler_made {
        Err(e) => SendWhatsAppHandlerStep::Done(Err(message_error(INTERNAL_SERVER_ERROR, e.clone()))),
        Ok(_) => SendWhatsAppHandlerStep::FindUser(auth.claims.sub.clone()),
    }
}

/// After the user lookup: a failed lookup is a 500 error with its
/// message; a found user sends the payload.
pub fn send_whatsapp_found(user: Result<u128, String>, payload: SendWhatsAppRequest) -> (r: SendWhatsAppHandlerStep)
    ensures
        user matches Err(e) ==> (r matches SendWhatsAppHandlerStep::Done(d) && outcome_view(d) == db_failure(e@)),
        user matches Ok(id) ==> (r matches SendWhatsAppHandlerStep::Send { user_id, to, message }
            && user_id == id && to@ == payload.to@ && message@ == payload.message@),
{
    match user {
        Err(e) => SendWhatsAppHandlerStep::Done(Err(message_error(INTERNAL_SERVER_ERROR, e))),
        Ok(user_id) => SendWhatsAppHandlerStep::Send { user_id, to: payload.to, message: payload.message },
    }
}

/// After sending: the handler's error, or 200 with a confirmation.
pub fn send_whatsapp_sent(sent: Result<(), HttpError>) -> (r: Result<Reply, HttpError>)
    ensures
        sent matches Err(e) ==> (r matches Err(x) && x@ == e@),
        sent is Ok ==> outcome_view(r) == Ok::<ReplyView, (u16, Option<Seq<char>>)>(ReplyView {
            status: OK, headers: seq![], body: "Message sent successfully"@ }),
{
    match sent {
        Err(e) => Err(e),
        Ok(()) => Ok(body_reply(OK, "Message sent successfully")),
    }
}

} // verus!
