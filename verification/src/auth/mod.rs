//! Authentication: session tokens, the guards in front of the chat and
//! admin pages, and the login, logout and registration handlers.
use vstd::prelude::*;
use vstd::string::*;
use crate::auth::dto::Claims;
use crate::auth::token::{claims_of_fields, current_timestamp, expired, hs256_decoded, secret_view, signed_with, token_check, validate_token_at, validated, JwtError, VALIDATION_LEEWAY};
use crate::auth::handler::session_claims;
use crate::cookie::{cookie_token, token_in_cookie_header};
use crate::http::{ascii_chars, header, header_text, Header, is_visible_ascii, status_error, HttpError, Reply, ReplyView, FOUND, UNAUTHORIZED};
use crate::auth::jwt::header_bytes;

pub mod dto;
pub mod token;
pub mod jwt;
pub mod handler;

verus! {

/// The session token in a `Cookie` header value: the header must be
/// visible ASCII (else the request is read as having no such header), and
/// the token is found as `cookie_token` says.
pub open spec fn cookie_header_token(header: Option<Seq<u8>>) -> Option<Seq<char>> {
    match header {
        None => None,
        Some(b) => if forall|i: int| 0 <= i < b.len() ==> is_visible_ascii(#[trigger] b[i]) {
            cookie_token(ascii_chars(b))
        } else {
            None
        },
    }
}

/// Reads the `token` cookie out of the value of the request's first
/// `Cookie` header.
pub fn get_token_from_cookie(cookie_header: Option<&[u8]>) -> (r: Option<String>)
    ensures
        r matches Some(t) ==> cookie_header_token(header_bytes(cookie_header)) == Some(t@),
        r is None ==> cookie_header_token(header_bytes(cookie_header)) is None,
{
    let bytes = match cookie_header {
        None => return None,
        Some(b) => b,
    };
    match header_text(bytes) {
        None => None,
        Some(text) => token_in_cookie_header(text.as_str()),
    }
}

/// What a guard does with a request: let it through to the page, answer
/// it itself, or refuse it with an error.
pub enum Gate {
    Pass,
    Respond(Reply),
    Reject(HttpError),
}

/// The mathematical value of a `Gate`.
pub enum GateView {
    Pass,
    Respond(ReplyView),
    Reject((u16, Option<Seq<char>>)),
}

impl View for Gate {
    type V = GateView;

    open spec fn view(&self) -> GateView {
        match self {
            Gate::Pass => GateView::Pass,
            Gate::Respond(r) => GateView::Respond(r@),
            Gate::Reject(e) => GateView::Reject(e@),
        }
    }
}

/// Whether the session token `tok` of a request is accepted at `now` with
/// the secret lookup `secret`.
pub open spec fn session_accepted(tok: Option<Seq<char>>, secret: Result<Seq<char>, Seq<char>>, now: u64) -> bool {
    tok matches Some(t) && validated(t, secret, now, VALIDATION_LEEWAY) is Ok
}

/// Whether `tok` is a token signed with the secret.
pub open spec fn session_signed(tok: Option<Seq<char>>, secret: Result<Seq<char>, Seq<char>>) -> bool {
    tok matches Some(t) && signed_with(t, secret)
}

/// The guard in front of the admin pages.
pub struct AdminMiddleware;

/// The guard in front of the chat page.
pub struct ChatMiddleware;

/// The admin pages behind their guard.
pub struct AdminMiddlewareImpl<E>(pub E);

/// The chat page behind its guard.
pub struct ChatMiddlewareImpl<E>(pub E);

/// The admin guard: a request passes when it has a `token` cookie that
/// checks out, and is refused with a bare 401 otherwise.
pub open spec fn admin_gate(token: Option<Seq<char>>, accepted: bool) -> GateView {
    if token is Some && accepted {
        GateView::Pass
    } else {
        GateView::Reject((UNAUTHORIZED, None))
    }
}

/// The redirect to the login page with the headers that forbid caching.
pub open spec fn login_redirect(location: Seq<char>, clear_cookie: bool) -> ReplyView {
    ReplyView {
        status: FOUND,
        headers: if clear_cookie {
            seq![("Location"@, location),
                ("Set-Cookie"@, "token=; Path=/; Max-Age=0; HttpOnly; SameSite=Lax; Secure"@),
                ("Cache-Control"@, "no-store, no-cache, must-revalidate"@), ("Pragma"@, "no-cache"@)]
        } else {
            seq![("Location"@, location), ("Cache-Control"@, "no-store, no-cache, must-revalidate"@),
                ("Pragma"@, "no-cache"@)]
        },
        body: seq![],
    }
}

/// The chat guard: a request passes when its `token` cookie checks out; a
/// token that does not check out sends the user to the login page with
/// `error=session_expired` and clears the cookie; no token sends the user
/// to the login page.
pub open spec fn chat_gate(token: Option<Seq<char>>, accepted: bool) -> GateView {
    match token {
        None => GateView::Respond(login_redirect("/login"@, false)),
        Some(_) => if accepted {
            GateView::Pass
        } else {
            GateView::Respond(login_redirect("/login?error=session_expired"@, true))
        },
    }
}

impl AdminMiddleware {
    /// Puts the guard in front of `ep`.
    pub fn transform<E>(&self, ep: E) -> (r: AdminMiddlewareImpl<E>)
        ensures
            r.0 == ep,
    {
        AdminMiddlewareImpl(ep)
    }

    /// The admin guard's decision at the instant `now` for a request with
    /// this `Cookie` header, as `admin_outcome` says.
    pub fn check_at(cookie_header: Option<&[u8]>, jwt_secret: &Result<String, String>, now: u64) -> (r: Gate)
        ensures
            admin_outcome(cookie_header_token(header_bytes(cookie_header)), secret_view(*jwt_secret), now, r@),
    {
        match get_token_from_cookie(cookie_header) {
            Some(token) => match validate_token_at(token.as_str(), jwt_secret, now) {
                Ok(_) => Gate::Pass,
                Err(_) => Gate::Reject(status_error(UNAUTHORIZED)),
            },
            None => Gate::Reject(status_error(UNAUTHORIZED)),
        }
    }

    /// The admin guard's decision at the current time, as `check_at`.
    pub fn check(cookie_header: Option<&[u8]>, jwt_secret: &Result<String, String>) -> (r: Gate)
        ensures
            exists|now: u64| #[trigger] admin_outcome(cookie_header_token(header_bytes(cookie_header)), secret_view(*jwt_secret), now, r@),
    {
        let now = current_timestamp();
        AdminMiddleware::check_at(cookie_header, jwt_secret, now)
    }
}

/// The admin guard's decision at `now` for the session token `tok`: the
/// request passes exactly when the token is accepted, and a token that
/// passes is signed with the secret.
pub open spec fn admin_outcome(tok: Option<Seq<char>>, secret: Result<Seq<char>, Seq<char>>, now: u64, g: GateView) -> bool {
    &&& g == admin_gate(tok, session_accepted(tok, secret, now))
    &&& (g == GateView::Pass ==> session_signed(tok, secret))
}

/// The chat guard's decision at `now` for the session token `tok`: the
/// request passes exactly when the token is accepted, and a token that
/// passes is signed with the secret.
pub open spec fn chat_outcome(tok: Option<Seq<char>>, secret: Result<Seq<char>, Seq<char>>, now: u64, g: GateView) -> bool {
    &&& g == chat_gate(tok, session_accepted(tok, secret, now))
    &&& (g == GateView::Pass ==> session_signed(tok, secret))
}

/// The redirect to `location` with no-cache headers, clearing the session
/// cookie when asked.
fn redirect_to_login(location: &str, clear_cookie: bool) -> (r: Reply)
    ensures
        r@ == login_redirect(location@, clear_cookie),
{
    let mut headers: Vec<Header> = Vec::new();
    headers.push(header("Location", location));
    if clear_cookie {
        headers.push(header("Set-Cookie", "token=; Path=/; Max-Age=0; HttpOnly; SameSite=Lax; Secure"));
    }
    headers.push(header("Cache-Control", "no-store, no-cache, must-revalidate"));
    headers.push(header("Pragma", "no-cache"));
    let r = Reply { status: FOUND, headers, body: String::new() };
    assert(r@.headers =~= login_redirect(location@, clear_cookie).headers);
    r
}

impl ChatMiddleware {
    /// Puts the guard in front of `ep`.
    pub fn transform<E>(&self, ep: E) -> (r: ChatMiddlewareImpl<E>)
        ensures
            r.0 == ep,
    {
        ChatMiddlewareImpl(ep)
    }

    /// The chat guard's decision at the instant `now` for a request with
    /// this `Cookie` header, as `chat_outcome` says.
    pub fn check_at(cookie_header: Option<&[u8]>, jwt_secret: &Result<String, String>, now: u64) -> (r: Gate)
        ensures
            chat_outcome(cookie_header_token(header_bytes(cookie_header)), secret_view(*jwt_secret), now, r@),
    {
        match get_token_from_cookie(cookie_header) {
            Some(token) => match validate_token_at(token.as_str(), jwt_secret, now) {
                Ok(_) => Gate::Pass,
                Err(_) => Gate::Respond(redirect_to_login("/login?error=session_expired", true)),
            },
            None => Gate::Respond(redirect_to_login("/login", false)),
        }
    }

    /// The chat guard's decision at the current time, as `check_at`.
    pub fn check(cookie_header: Option<&[u8]>, jwt_secret: &Result<String, String>) -> (r: Gate)
        ensures
            exists|now: u64| #[trigger] chat_outcome(cookie_header_token(header_bytes(cookie_header)), secret_view(*jwt_secret), now, r@),
    {
        let now = current_timestamp();
        ChatMiddleware::check_at(cookie_header, jwt_secret, now)
    }
}

} // verus!

verus! {

/// Sessions expire two minutes after their `exp`, at every instant: for a
/// cookie token whose fields the token library decodes with the secret
/// into claims `c`, both guards deciding at the instant `now` let the
/// request through exactly when `now <= c.exp + 120`; past that, the admin
/// guard refuses it with a bare 401 and the chat guard sends it to the
/// login page with `error=session_expired`, clearing the cookie.
pub proof fn lemma_guards_follow_expiry(t: Seq<char>, s: Seq<char>, now: u64, fields: Seq<(Seq<char>, Seq<char>)>, c: (Seq<char>, usize), g: GateView)
    requires
        hs256_decoded(t, s) == Ok::<Seq<(Seq<char>, Seq<char>)>, Seq<char>>(fields),
        claims_of_fields(fields) == Ok::<(Seq<char>, usize), Seq<char>>(c),
    ensures
        session_accepted(Some(t), Ok(s), now) <==> now as int <= c.1 as int + 120,
        admin_outcome(Some(t), Ok(s), now, g) ==> (g == GateView::Pass <==> now as int <= c.1 as int + 120),
        admin_outcome(Some(t), Ok(s), now, g) && now as int > c.1 as int + 120
            ==> g == GateView::Reject((UNAUTHORIZED, None)),
        chat_outcome(Some(t), Ok(s), now, g) ==> (g == GateView::Pass <==> now as int <= c.1 as int + 120),
        chat_outcome(Some(t), Ok(s), now, g) && now as int > c.1 as int + 120
            ==> g == GateView::Respond(login_redirect("/login?error=session_expired"@, true)),
{
    assert(token_check(t, s, now, VALIDATION_LEEWAY) is Ok <==> !expired(c.1, now, VALIDATION_LEEWAY));
}

/// A login session lasts an hour and two minutes: when the token issued at
/// the instant `issued` for `email` decodes back (as the token library
/// decodes the tokens it issued) into the session's claims, the guards
/// accept it at exactly the instants up to `issued + 3600 + 120`.
pub proof fn lemma_login_session_lifetime(email: Seq<char>, issued: i64, t: Seq<char>, s: Seq<char>, fields: Seq<(Seq<char>, Seq<char>)>, now: u64)
    requires
        0 <= issued,
        issued + 3600 <= usize::MAX,
        hs256_decoded(t, s) == Ok::<Seq<(Seq<char>, Seq<char>)>, Seq<char>>(fields),
        claims_of_fields(fields) == Ok::<(Seq<char>, usize), Seq<char>>(session_claims(email, issued)),
    ensures
        session_accepted(Some(t), Ok(s), now) <==> now as int <= issued + 3600 + 120,
{
    assert(session_claims(email, issued).1 as int == issued + 3600);
    lemma_guards_follow_expiry(t, s, now, fields, session_claims(email, issued), GateView::Pass);
}

/// The guards let no request through without a session token, and none
/// through when the token is not accepted.
pub proof fn lemma_guards_need_accepted_token(token: Option<Seq<char>>, accepted: bool)
    ensures
        admin_gate(token, accepted) == GateView::Pass <==> (token is Some && accepted),
        chat_gate(token, accepted) == GateView::Pass <==> (token is Some && accepted),
{
}

} // verus!
