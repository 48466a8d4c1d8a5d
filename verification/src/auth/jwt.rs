//! Bearer tokens in the `Authorization` header, checked with the token
//! library's default leeway.
use vstd::prelude::*;
use vstd::string::*;
use crate::auth::dto::Claims;
use crate::auth::token::{check_token_at, current_timestamp, secret_view, signed_with, validated, validation_outcome, JwtErrorView};
use crate::http::{ascii_chars, header_text, message_error, status_error, HttpError, UNAUTHORIZED};
use crate::text::has_prefix;

verus! {

/// Why a bearer token was refused.
pub enum JwtError {
    /// The secret could not be read from the environment; the text says why.
    MissingEnv(String),
    /// The token library refused the token; the text is its message.
    InvalidToken(String),
}

impl View for JwtError {
    type V = JwtErrorView;

    open spec fn view(&self) -> JwtErrorView {
        match self {
            JwtError::MissingEnv(e) => JwtErrorView::MissingEnv(e@),
            JwtError::InvalidToken(e) => JwtErrorView::InvalidToken(e@),
        }
    }
}

impl JwtError {
    /// The displayed text of the error, as for the session-token error.
    pub fn to_display(&self) -> (r: String)
        ensures
            r@ == crate::auth::token::jwt_error_text(self@),
    {
        match self {
            JwtError::MissingEnv(m) => {
                let mut out = String::from_str("Missing environment variable: ");
                out.append(m.as_str());
                out
            },
            JwtError::InvalidToken(m) => {
                let mut out = String::from_str("Invalid token: ");
                out.append(m.as_str());
                out
            },
        }
    }

    /// The HTTP error this becomes: 401 with the displayed text.
    pub fn into_http_error(self) -> (e: HttpError)
        ensures
            e@ == (UNAUTHORIZED, Some(crate::auth::token::jwt_error_text(self@))),
    {
        message_error(UNAUTHORIZED, self.to_display())
    }
}

/// The claims of a request that carried a valid bearer token.
pub struct JwtToken {
    pub claims: Claims,
}

/// The leeway, in seconds, that `Validation::new` sets and
/// `verify_token` keeps.
pub const DEFAULT_LEEWAY: u64 = 60;

/// The view of the result of checking a bearer token.
pub open spec fn verify_result(r: Result<Claims, JwtError>) -> Result<(Seq<char>, usize), JwtErrorView> {
    match r {
        Ok(c) => Ok(c@),
        Err(e) => Err(e@),
    }
}

/// Checks a bearer token at the instant `now` with the secret lookup
/// `jwt_secret` and the default leeway of one minute past expiry; the
/// outcome is as for `validate_token_at` with that leeway.
pub fn verify_token_at(token: &str, jwt_secret: &Result<String, String>, now: u64) -> (r: Result<Claims, JwtError>)
    ensures
        validation_outcome(token@, secret_view(*jwt_secret), now, DEFAULT_LEEWAY, verify_result(r)),
{
    let secret = match jwt_secret {
        Err(e) => return Err(JwtError::MissingEnv(e.clone())),
        Ok(s) => s,
    };
    match check_token_at(token, secret.as_str(), now, DEFAULT_LEEWAY) {
        Ok(c) => Ok(c),
        Err(m) => Err(JwtError::InvalidToken(m)),
    }
}

/// Checks a bearer token at the current time (as the token library reads
/// the clock), as `verify_token_at` does.
pub fn verify_token(token: &str, jwt_secret: &Result<String, String>) -> (r: Result<Claims, JwtError>)
    ensures
        exists|now: u64| #[trigger] validation_outcome(token@, secret_view(*jwt_secret), now, DEFAULT_LEEWAY, verify_result(r)),
{
    let now = current_timestamp();
    verify_token_at(token, jwt_secret, now)
}

/// The text that opens a bearer credential.
pub open spec fn bearer_prefix() -> Seq<char> {
    "Bearer "@
}

/// The token in an `Authorization` header value: the header must be
/// visible ASCII and start with `Bearer `, and the token is what follows.
pub open spec fn bearer_of(header: Option<Seq<u8>>) -> Option<Seq<char>> {
    match header {
        None => None,
        Some(b) => if (forall|i: int| 0 <= i < b.len() ==> crate::http::is_visible_ascii(#[trigger] b[i]))
            && has_prefix(ascii_chars(b), bearer_prefix()) {
            Some(ascii_chars(b).skip(7))
        } else {
            None
        },
    }
}

/// The view of an optional header value.
pub open spec fn header_bytes(h: Option<&[u8]>) -> Option<Seq<u8>> {
    match h {
        Some(b) => Some(b@),
        None => None,
    }
}

/// Reads the bearer token out of the `Authorization` header value.
pub fn bearer_token(authorization: Option<&[u8]>) -> (r: Option<String>)
    ensures
        r matches Some(t) ==> bearer_of(header_bytes(authorization)) == Some(t@),
        r is None ==> bearer_of(header_bytes(authorization)) is None,
{
    let bytes = match authorization {
        None => return None,
        Some(b) => b,
    };
    let text = match header_text(bytes) {
        None => return None,
        Some(t) => t,
    };
    proof {
        reveal_strlit("Bearer ");
    }
    let n = text.unicode_len();
    if n < 7 {
        proof {
            assert(!has_prefix(text@, bearer_prefix()));
        }
        return None;
    }
    let head = text.as_str().substring_char(0, 7);
    let expected = String::from_str("Bearer ");
    let head_s = String::from_str(head);
    if head_s == expected {
        assert(text@.take(7) =~= head@);
        let rest = text.as_str().substring_char(7, n);
        Some(rest.to_owned())
    } else {
        assert(text@.take(7) =~= head@);
        None
    }
}

/// The view of the outcome of reading a bearer token from a request.
pub open spec fn extracted_view(r: Result<JwtToken, HttpError>) -> Result<(Seq<char>, usize), (u16, Option<Seq<char>>)> {
    match r {
        Ok(t) => Ok(t.claims@),
        Err(e) => Err(e@),
    }
}

/// What reading a bearer token gives once the token was checked.
pub open spec fn extracted(checked: Result<(Seq<char>, usize), JwtErrorView>) -> Result<(Seq<char>, usize), (u16, Option<Seq<char>>)> {
    match checked {
        Ok(c) => Ok(c),
        Err(e) => Err((UNAUTHORIZED, Some(crate::auth::token::jwt_error_text(e)))),
    }
}

impl JwtToken {
    /// Turns the check of a bearer token into the extractor's outcome: the
    /// claims, or 401 with the error's text.
    pub fn from_verified(checked: Result<Claims, JwtError>) -> (r: Result<JwtToken, HttpError>)
        ensures
            extracted_view(r) == extracted(verify_result(checked)),
    {
        match checked {
            Ok(claims) => Ok(JwtToken { claims }),
            Err(e) => Err(e.into_http_error()),
        }
    }

    /// Reads and checks the bearer token of a request at the instant
    /// `now`, given the value of its `Authorization` header, as
    /// `bearer_outcome` says.
    pub fn from_authorization_at(authorization: Option<&[u8]>, jwt_secret: &Result<String, String>, now: u64) -> (r: Result<JwtToken, HttpError>)
        ensures
            bearer_outcome(header_bytes(authorization), secret_view(*jwt_secret), now, extracted_view(r)),
    {
        let token = match bearer_token(authorization) {
            None => return Err(status_error(UNAUTHORIZED)),
            Some(t) => t,
        };
        let checked = verify_token_at(token.as_str(), jwt_secret, now);
        JwtToken::from_verified(checked)
    }

    /// Reads and checks the bearer token of a request at the current time,
    /// as `from_authorization_at` does.
    pub fn from_authorization(authorization: Option<&[u8]>, jwt_secret: &Result<String, String>) -> (r: Result<JwtToken, HttpError>)
        ensures
            exists|now: u64| #[trigger] bearer_outcome(header_bytes(authorization), secret_view(*jwt_secret), now, extracted_view(r)),
    {
        let now = current_timestamp();
        JwtToken::from_authorization_at(authorization, jwt_secret, now)
    }
}

/// What reading the bearer token of a request gives at `now`: no header, a
/// header that is not visible ASCII, or one without the `Bearer ` prefix
/// gives a bare 401; otherwise the token is checked with the default
/// leeway, and its claims or 401 with the error's text come out. Claims
/// come out only for a token signed with the secret.
pub open spec fn bearer_outcome(header: Option<Seq<u8>>, secret: Result<Seq<char>, Seq<char>>, now: u64, res: Result<(Seq<char>, usize), (u16, Option<Seq<char>>)>) -> bool {
    match bearer_of(header) {
        None => res == Err::<(Seq<char>, usize), (u16, Option<Seq<char>>)>((UNAUTHORIZED, None)),
        Some(t) => {
            &&& res == extracted(validated(t, secret, now, DEFAULT_LEEWAY))
            &&& (res is Ok ==> signed_with(t, secret))
        },
    }
}

} // verus!

verus! {

/// The bytes of an ASCII text.
pub open spec fn ascii_bytes(s: Seq<char>) -> Seq<u8> {
    s.map_values(|c: char| (c as int) as u8)
}

/// Whether a character is one that a header value may carry as text.
pub open spec fn is_header_char(c: char) -> bool {
    (32 <= (c as int) && (c as int) < 127) || (c as int) == 9
}

/// A bearer credential read back: the `Authorization` value
/// `Bearer <t>` that the JSON login hands out, sent back as it is, gives
/// `t` when `t` is made of header characters (an issued token is).
pub proof fn lemma_bearer_reads_back(t: Seq<char>)
    requires
        forall|i: int| 0 <= i < t.len() ==> is_header_char(#[trigger] t[i]),
    ensures
        bearer_of(Some(ascii_bytes(bearer_prefix() + t))) == Some(t),
{
    reveal_strlit("Bearer ");
    let s = bearer_prefix() + t;
    let b = ascii_bytes(s);
    assert forall|i: int| 0 <= i < s.len() implies is_header_char(#[trigger] s[i]) by {
        if i >= 7 {
            assert(s[i] == t[i - 7]);
        }
    }
    assert forall|i: int| 0 <= i < b.len() implies crate::http::is_visible_ascii(#[trigger] b[i]) by {
        assert(is_header_char(s[i]));
        assert(b[i] == (s[i] as int) as u8);
        assert(b[i] as int == s[i] as int);
    }
    assert forall|i: int| 0 <= i < s.len() implies #[trigger] ascii_chars(b)[i] == s[i] by {
        assert(is_header_char(s[i]));
        assert(b[i] as int == s[i] as int);
        assert(ascii_chars(b)[i] == b[i] as char);
        assert((b[i] as char) as int == s[i] as int);
    }
    assert(ascii_chars(b) =~= s);
    assert(s.take(7) =~= bearer_prefix());
    assert(s.skip(7) =~= t);
}

} // verus!
