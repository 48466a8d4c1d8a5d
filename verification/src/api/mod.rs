//! The decisions of the JSON API: bearer-authenticated endpoints and the
//! message list and post. The database queries are made by the caller.
use vstd::prelude::*;
use vstd::string::*;
use crate::auth::{cookie_header_token, get_token_from_cookie, session_accepted, session_signed};
use crate::auth::dto::TokenResponse;
use crate::auth::jwt::{header_bytes, verify_token_at, JwtError, DEFAULT_LEEWAY};
use crate::auth::dto::Claims;
use crate::auth::token::{claims_of_fields, current_timestamp, expired, hs256_decoded, secret_view, signed_with, token_check, validate_token_at, validated, VALIDATION_LEEWAY};
use crate::ids::{rfc3339_text, uuid_parse, uuid_parsed, uuid_text, uuid_to_string};
use crate::models::mensagens::Mensagem;

verus! {

/// A WhatsApp message to send.
pub struct WhatsAppMessage {
    pub to: String,
    pub message: String,
}

/// The answer of the authenticated endpoints.
pub enum AuthResponse {
    Success,
    Unauthorized,
    InternalError,
}

/// A message as the API shows it: ids as hyphenated text, the creation
/// time in RFC 3339.
pub struct MessageResponse {
    pub id: String,
    pub user_id: String,
    pub texto: String,
    pub recebido: bool,
    pub criado_em: String,
}

/// The answer of the message list.
pub enum MessagesResponse {
    Listed(Vec<MessageResponse>),
    Unauthorized,
    InternalError,
}

/// The answer of the message post.
pub enum MessageCreatedResponse {
    Created(MessageResponse),
    Unauthorized,
    InternalError,
}

/// The answer of a JSON login.
pub enum LoginResponse {
    Issued(TokenResponse),
    InvalidCredentials,
    Error(String),
}

/// The body of a message post.
pub struct SendMessageRequest {
    pub texto: String,
}

/// The texts of a shown message: id, user id, text, time.
pub open spec fn response_texts(r: MessageResponse) -> (Seq<char>, Seq<char>, Seq<char>, Seq<char>) {
    (r.id@, r.user_id@, r.texto@, r.criado_em@)
}

/// How a message is shown.
pub open spec fn shows(r: MessageResponse, m: Mensagem) -> bool {
    &&& response_texts(r) == (uuid_text(m.id), uuid_text(m.user_id), m.texto@,
        rfc3339_text(m.criado_em.spec_secs(), m.criado_em.spec_nanos()))
    &&& r.recebido == m.recebido
}

/// A message as the API shows it.
pub fn message_response(m: Mensagem) -> (r: MessageResponse)
    ensures
        shows(r, m),
{
    MessageResponse {
        id: uuid_to_string(m.id),
        user_id: uuid_to_string(m.user_id),
        criado_em: m.criado_em.to_rfc3339(),
        texto: m.texto,
        recebido: m.recebido,
    }
}

/// The answer of an authenticated endpoint once the bearer token was
/// checked: `Success` for claims, `Unauthorized` for an error.
pub fn auth_response(checked: &Result<Claims, JwtError>) -> (r: AuthResponse)
    ensures
        r is Success || r is Unauthorized,
        r is Success <==> checked is Ok,
{
    match checked {
        Ok(_) => AuthResponse::Success,
        Err(_) => AuthResponse::Unauthorized,
    }
}

/// The answer of a bearer-authenticated endpoint at `now`: `Success` when
/// the bearer token is accepted with the default leeway, `Unauthorized`
/// otherwise; a token that gets `Success` is signed with the secret.
pub open spec fn bearer_answer(bearer: Seq<char>, secret: Result<Seq<char>, Seq<char>>, now: u64, r: AuthResponse) -> bool {
    &&& r == (if validated(bearer, secret, now, DEFAULT_LEEWAY) is Ok { AuthResponse::Success } else { AuthResponse::Unauthorized })
    &&& (r is Success ==> signed_with(bearer, secret))
}

/// Bearer tokens expire one minute after their `exp`, at every instant:
/// for a bearer token whose fields the token library decodes with the
/// secret into claims `c`, the bearer endpoints answering at the instant
/// `now` give `Success` exactly when `now <= c.exp + 60`, and
/// `Unauthorized` past that.
pub proof fn lemma_bearer_follows_expiry(t: Seq<char>, s: Seq<char>, now: u64, fields: Seq<(Seq<char>, Seq<char>)>, c: (Seq<char>, usize), r: AuthResponse)
    requires
        hs256_decoded(t, s) == Ok::<Seq<(Seq<char>, Seq<char>)>, Seq<char>>(fields),
        claims_of_fields(fields) == Ok::<(Seq<char>, usize), Seq<char>>(c),
        bearer_answer(t, Ok(s), now, r),
    ensures
        r is Success <==> now as int <= c.1 as int + 60,
        now as int > c.1 as int + 60 ==> r is Unauthorized,
{
    assert(token_check(t, s, now, DEFAULT_LEEWAY) is Ok <==> !expired(c.1, now, DEFAULT_LEEWAY));
}

/// `POST /whatsapp` at the instant `now`: the bearer token is checked as
/// `verify_token_at` does, and the answer is `auth_response` of that check.
pub fn send_whatsapp_at(bearer: &str, jwt_secret: &Result<String, String>, now: u64) -> (r: AuthResponse)
    ensures
        bearer_answer(bearer@, secret_view(*jwt_secret), now, r),
{
    let checked = verify_token_at(bearer, jwt_secret, now);
    auth_response(&checked)
}

/// `POST /whatsapp` at the current time, as `send_whatsapp_at` does.
pub fn send_whatsapp(bearer: &str, jwt_secret: &Result<String, String>) -> (r: AuthResponse)
    ensures
        exists|now: u64| #[trigger] bearer_answer(bearer@, secret_view(*jwt_secret), now, r),
{
    let now = current_timestamp();
    send_whatsapp_at(bearer, jwt_secret, now)
}

/// `GET /me` at the instant `now`: as `send_whatsapp_at`.
pub fn me_at(bearer: &str, jwt_secret: &Result<String, String>, now: u64) -> (r: AuthResponse)
    ensures
        bearer_answer(bearer@, secret_view(*jwt_secret), now, r),
{
    let checked = verify_token_at(bearer, jwt_secret, now);
    auth_response(&checked)
}

/// `GET /me` at the current time, as `me_at` does.
pub fn me(bearer: &str, jwt_secret: &Result<String, String>) -> (r: AuthResponse)
    ensures
        exists|now: u64| #[trigger] bearer_answer(bearer@, secret_view(*jwt_secret), now, r),
{
    let now = current_timestamp();
    me_at(bearer, jwt_secret, now)
}

/// What the message list asks for next, or its answer.
pub enum ListMessagesStep {
    /// List all messages, newest first.
    Query,
    Done(MessagesResponse),
}

/// How the message list starts at `now` for the session token `tok`: an
/// accepted token lists the messages, and it is signed with the secret;
/// no token, or one that is not accepted, is `Unauthorized`.
pub open spec fn list_start(tok: Option<Seq<char>>, secret: Result<Seq<char>, Seq<char>>, now: u64, r: ListMessagesStep) -> bool {
    &&& (if session_accepted(tok, secret, now) { r is Query } else { r matches ListMessagesStep::Done(MessagesResponse::Unauthorized) })
    &&& (r is Query ==> session_signed(tok, secret))
}

/// The message list at the instant `now`, as `list_start` says for the
/// session token of the `Cookie` header.
pub fn list_messages_at(cookie_header: Option<&[u8]>, jwt_secret: &Result<String, String>, now: u64) -> (r: ListMessagesStep)
    ensures
        list_start(cookie_header_token(header_bytes(cookie_header)), secret_view(*jwt_secret), now, r),
{
    let token = match get_token_from_cookie(cookie_header) {
        None => return ListMessagesStep::Done(MessagesResponse::Unauthorized),
        Some(t) => t,
    };
    match validate_token_at(token.as_str(), jwt_secret, now) {
        Ok(_) => ListMessagesStep::Query,
        Err(_) => ListMessagesStep::Done(MessagesResponse::Unauthorized),
    }
}

/// The message list at the current time, as `list_messages_at` does.
pub fn list_messages(cookie_header: Option<&[u8]>, jwt_secret: &Result<String, String>) -> (r: ListMessagesStep)
    ensures
        exists|now: u64| #[trigger] list_start(cookie_header_token(header_bytes(cookie_header)), secret_view(*jwt_secret), now, r),
{
    let now = current_timestamp();
    list_messages_at(cookie_header, jwt_secret, now)
}

/// The message list's answer once the messages were listed: each shown
/// as `message_response` shows it, in the same order, or `InternalError`
/// when the query failed.
pub fn list_messages_done(rows: Result<Vec<Mensagem>, String>) -> (r: MessagesResponse)
    ensures
        rows is Err ==> r is InternalError,
        rows matches Ok(ms) ==> (r matches MessagesResponse::Listed(rs) && rs.len() == ms.len()
            && forall|i: int| 0 <= i < ms.len() ==> shows(#[trigger] rs[i], ms[i])),
{
    let mut ms = match rows {
        Err(_) => return MessagesResponse::InternalError,
        Ok(ms) => ms,
    };
    let ghost orig = ms@;
    let mut out: Vec<MessageResponse> = Vec::new();
    let n = ms.len();
    let mut rest: Vec<Mensagem> = Vec::new();
    // Take the messages out back to front, then show them front to back.
    while ms.len() > 0
        invariant
            ms@.len() + rest@.len() == n,
            n == orig.len(),
            forall|i: int| 0 <= i < ms@.len() ==> ms@[i] == orig[i],
            forall|i: int| 0 <= i < rest@.len() ==> rest@[i] == orig[n - 1 - i],
        decreases ms@.len(),
    {
        let m = ms.pop().unwrap();
        rest.push(m);
    }
    while rest.len() > 0
        invariant
            out@.len() + rest@.len() == n,
            n == orig.len(),
            forall|i: int| 0 <= i < rest@.len() ==> rest@[i] == orig[n - 1 - i],
            forall|i: int| 0 <= i < out@.len() ==> shows(#[trigger] out@[i], orig[i]),
        decreases rest@.len(),
    {
        let m = rest.pop().unwrap();
        let resp = message_response(m);
        out.push(resp);
    }
    MessagesResponse::Listed(out)
}

/// What the message post asks for next, or its answer.
pub enum SendMessageStep {
    /// Insert a message of this user with this text, received or sent.
    Insert { user_id: u128, texto: String, recebido: bool },
    Done(MessageCreatedResponse),
}

/// The message post's step for the subject of an accepted session: a
/// subject that is not a UUID is an `InternalError`; one that is gives the
/// insert of the text `texto` for the user it names, as not received.
pub open spec fn sent_for(subject: Seq<char>, texto: Seq<char>, r: SendMessageStep) -> bool {
    match uuid_parsed(subject) {
        None => r matches SendMessageStep::Done(MessageCreatedResponse::InternalError),
        Some(id) => (r matches SendMessageStep::Insert { user_id, texto: t, recebido } && user_id == id && t@ == texto
            && !recebido),
    }
}

/// How the message post starts at `now` for the session token `tok`: no
/// token, or one that is not accepted, is `Unauthorized`; an accepted
/// token goes on as `sent_for` says for its subject, and it is signed with
/// the secret.
pub open spec fn post_start(tok: Option<Seq<char>>, secret: Result<Seq<char>, Seq<char>>, now: u64, texto: Seq<char>, r: SendMessageStep) -> bool {
    &&& match tok {
        None => r matches SendMessageStep::Done(MessageCreatedResponse::Unauthorized),
        Some(t) => match validated(t, secret, now, VALIDATION_LEEWAY) {
            Err(_) => r matches SendMessageStep::Done(MessageCreatedResponse::Unauthorized),
            Ok(c) => sent_for(c.0, texto, r),
        },
    }
    &&& (r is Insert ==> session_signed(tok, secret))
}

/// The message post at the instant `now`, as `post_start` says for the
/// session token of the `Cookie` header.
pub fn send_message_at(cookie_header: Option<&[u8]>, payload: &SendMessageRequest, jwt_secret: &Result<String, String>, now: u64) -> (r: SendMessageStep)
    ensures
        post_start(cookie_header_token(header_bytes(cookie_header)), secret_view(*jwt_secret), now, payload.texto@, r),
{
    let token = match get_token_from_cookie(cookie_header) {
        None => return SendMessageStep::Done(MessageCreatedResponse::Unauthorized),
        Some(t) => t,
    };
    match validate_token_at(token.as_str(), jwt_secret, now) {
        Ok(claims) => send_message_for(claims.sub.as_str(), payload),
        Err(_) => SendMessageStep::Done(MessageCreatedResponse::Unauthorized),
    }
}

/// The message post at the current time, as `send_message_at` does.
pub fn send_message(cookie_header: Option<&[u8]>, payload: &SendMessageRequest, jwt_secret: &Result<String, String>) -> (r: SendMessageStep)
    ensures
        exists|now: u64| #[trigger] post_start(cookie_header_token(header_bytes(cookie_header)), secret_view(*jwt_secret), now, payload.texto@, r),
{
    let now = current_timestamp();
    send_message_at(cookie_header, payload, jwt_secret, now)
}

/// The message post's answer for a session subject once checked: a
/// subject that is not a UUID is an `InternalError`, one that is gives the
/// insert of the message for that user.
pub fn send_message_for(subject: &str, payload: &SendMessageRequest) -> (r: SendMessageStep)
    ensures
        sent_for(subject@, payload.texto@, r),
{
    match uuid_parse(subject) {
        None => SendMessageStep::Done(MessageCreatedResponse::InternalError),
        Some(user_id) => SendMessageStep::Insert { user_id, texto: payload.texto.clone(), recebido: false },
    }
}

/// The message post's answer once the insert answered: the message shown
/// as `message_response` shows it, or `InternalError`.
pub fn send_message_done(inserted: Result<Mensagem, String>) -> (r: MessageCreatedResponse)
    ensures
        inserted is Err ==> r is InternalError,
        inserted matches Ok(m) ==> (r matches MessageCreatedResponse::Created(resp) && shows(resp, m)),
{
    match inserted {
        Err(_) => MessageCreatedResponse::InternalError,
        Ok(m) => MessageCreatedResponse::Created(message_response(m)),
    }
}

} // verus!
