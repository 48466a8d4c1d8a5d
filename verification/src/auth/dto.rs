//! The records that the authentication handlers read and write.
use vstd::prelude::*;
use vstd::string::*;
use crate::json::{decimal, json_quoted, json_quote, push_decimal};
use crate::auth::token::{current_timestamp, secret_view, signed_with, validate_token_at, validated, VALIDATION_LEEWAY};
use crate::http::{status_error, HttpError, UNAUTHORIZED};

verus! {

/// The form or JSON body of a login.
pub struct LoginPayload {
    pub email: String,
    pub password: String,
}

/// The form body of a registration.
pub struct RegisterPayload {
    pub nome: String,
    pub cpf: String,
    pub telefone: String,
    pub email: String,
    pub password: String,
    pub categoria: String,
}

/// The claims of a session token: the user's e-mail and the expiry time
/// in seconds since the Unix epoch.
pub struct Claims {
    pub sub: String,
    pub exp: usize,
}

/// The claims of a request that carried a valid `token` cookie.
pub struct AuthToken {
    pub claims: Claims,
}

/// A token handed out in a JSON body.
pub struct TokenResponse {
    pub token: String,
}

impl View for Claims {
    type V = (Seq<char>, usize);

    open spec fn view(&self) -> (Seq<char>, usize) {
        (self.sub@, self.exp)
    }
}

/// The compact JSON object that `serde_json` writes for claims, fields in
/// declaration order: `{"sub":...,"exp":...}`.
pub open spec fn claims_json(sub: Seq<char>, exp: nat) -> Seq<char> {
    "{\"sub\":"@ + json_quoted(sub) + ",\"exp\":"@ + decimal(exp) + "}"@
}

impl Claims {
    /// The claims written as JSON.
    pub fn to_json(&self) -> (r: String)
        ensures
            r@ == claims_json(self.sub@, self.exp as nat),
    {
        let mut out = String::from_str("{\"sub\":");
        let quoted = json_quote(self.sub.as_str());
        out.append(quoted.as_str());
        out.append(",\"exp\":");
        push_decimal(&mut out, self.exp as u64);
        out.append("}");
        out
    }
}

/// The view of the outcome of reading the session from a request.
pub open spec fn auth_token_view(r: Result<AuthToken, HttpError>) -> Result<(Seq<char>, usize), (u16, Option<Seq<char>>)> {
    match r {
        Ok(t) => Ok(t.claims@),
        Err(e) => Err(e@),
    }
}

/// What reading the session gives at `now`, given the `token` cookie as
/// the cookie jar read it: no cookie gives a bare 401; an unreadable cookie
/// gives its error; a token that checks out gives its claims, and one that
/// does not a bare 401. Claims come out only for a token signed with the
/// secret.
pub open spec fn cookie_session(cookie: Option<Result<String, HttpError>>, secret: Result<Seq<char>, Seq<char>>, now: u64, res: Result<(Seq<char>, usize), (u16, Option<Seq<char>>)>) -> bool {
    match cookie {
        None => res == Err::<(Seq<char>, usize), (u16, Option<Seq<char>>)>((UNAUTHORIZED, None)),
        Some(Err(e)) => res == Err::<(Seq<char>, usize), (u16, Option<Seq<char>>)>(e@),
        Some(Ok(v)) => {
            &&& res == match validated(v@, secret, now, VALIDATION_LEEWAY) {
                Ok(c) => Ok(c),
                Err(_) => Err((UNAUTHORIZED, None::<Seq<char>>)),
            }
            &&& (res is Ok ==> signed_with(v@, secret))
        },
    }
}

impl AuthToken {
    /// Reads the session of a request at the instant `now` from its
    /// `token` cookie: `cookie` is the cookie's value as the cookie jar
    /// read it, or the error that reading it raised.
    pub fn from_cookie_at(cookie: Option<Result<String, HttpError>>, jwt_secret: &Result<String, String>, now: u64) -> (r: Result<AuthToken, HttpError>)
        ensures
            cookie_session(cookie, secret_view(*jwt_secret), now, auth_token_view(r)),
    {
        let value = match cookie {
            None => return Err(status_error(UNAUTHORIZED)),
            Some(Err(e)) => return Err(e),
            Some(Ok(v)) => v,
        };
        match validate_token_at(value.as_str(), jwt_secret, now) {
            Ok(claims) => Ok(AuthToken { claims }),
            Err(_) => Err(status_error(UNAUTHORIZED)),
        }
    }

    /// Reads the session of a request at the current time, as
    /// `from_cookie_at` does.
    pub fn from_cookie(cookie: Option<Result<String, HttpError>>, jwt_secret: &Result<String, String>) -> (r: Result<AuthToken, HttpError>)
        ensures
            exists|now: u64| #[trigger] cookie_session(cookie, secret_view(*jwt_secret), now, auth_token_view(r)),
    {
        let now = current_timestamp();
        AuthToken::from_cookie_at(cookie, jwt_secret, now)
    }
}

} // verus!
