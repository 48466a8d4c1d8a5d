//! The decisions of the login, logout, identity and registration handlers.
//! The database queries are made by the caller, which hands their answers in.
use vstd::prelude::*;
use vstd::string::*;
use crate::auth::dto::{claims_json, AuthToken, Claims, RegisterPayload};
use crate::auth::token::{generate_token, generated_token, hs256_signed, jwt_error_text, secret_view, token_result, JwtError, JwtErrorView};
use crate::db::{db_error_view, DbError};
use crate::http::{header, header_owned, Header, Reply, ReplyView, FOUND, INTERNAL_SERVER_ERROR, OK, UNAUTHORIZED, CONFLICT};
use crate::ids::{new_uuid_v4, UtcTime};
use crate::models::users::{is_v4, User};

verus! {

/// The header that clears the session cookie on logout.
pub open spec fn logout_cookie() -> Seq<char> {
    "token=; Path=/; HttpOnly; SameSite=Lax; Secure; Max-Age=0"@
}

/// Logging out sends the user to the login page and clears the cookie.
pub fn logout() -> (r: Reply)
    ensures
        r@ == (ReplyView {
            status: FOUND,
            headers: seq![("Location"@, "/login"@), ("Set-Cookie"@, logout_cookie())],
            body: seq![],
        }),
{
    let mut headers: Vec<Header> = Vec::new();
    headers.push(header("Location", "/login"));
    headers.push(header("Set-Cookie", "token=; Path=/; HttpOnly; SameSite=Lax; Secure; Max-Age=0"));
    let r = Reply { status: FOUND, headers, body: String::new() };
    assert(r@.headers =~= seq![("Location"@, "/login"@), ("Set-Cookie"@, logout_cookie())]);
    r
}

/// How long a session lasts, in seconds.
pub const SESSION_SECONDS: i64 = 3600;

/// The claims of a session opened at `now` for `email`: they expire an
/// hour later (the sum converted to `usize` as `as` does).
pub open spec fn session_claims(email: Seq<char>, now: i64) -> (Seq<char>, usize) {
    (email, (now + 3600) as usize)
}

/// The claims of a session opened at `now` for `email`.
pub fn session_claims_at(email: &String, now: i64) -> (c: Claims)
    requires
        now + 3600 <= i64::MAX,
    ensures
        c@ == session_claims(email@, now),
{
    let exp = #[verifier::truncate] ((now + SESSION_SECONDS) as usize);
    Claims { sub: email.clone(), exp }
}

/// The `Set-Cookie` value that stores a session token for an hour.
pub open spec fn session_cookie(token: Seq<char>) -> Seq<char> {
    "token="@ + token + "; Path=/; HttpOnly; SameSite=Lax; Secure; Max-Age=3600"@
}

/// The reply to a form login: a user found and a token issued go to the
/// chat with the session cookie set; a token that could not be issued goes
/// back to the login page with `error=token`; credentials that match no
/// user (or a failed query) go back with `error=credentials`.
pub open spec fn login_reply(found: bool, token: Result<Seq<char>, JwtErrorView>) -> ReplyView {
    if !found {
        ReplyView {
            status: FOUND,
            headers: seq![("Location"@, "/login?error=credentials"@), ("Cache-Control"@, "no-store"@)],
            body: seq![],
        }
    } else {
        match token {
            Ok(t) => ReplyView {
                status: FOUND,
                headers: seq![("Location"@, "/chat"@), ("Cache-Control"@, "no-cache, no-store, must-revalidate"@),
                    ("Pragma"@, "no-cache"@), ("Expires"@, "0"@), ("Set-Cookie"@, session_cookie(t))],
                body: seq![],
            },
            Err(_) => ReplyView {
                status: FOUND,
                headers: seq![("Location"@, "/login?error=token"@), ("Cache-Control"@, "no-store"@)],
                body: seq![],
            },
        }
    }
}

/// The e-mail of the user that a login query found, if it found one.
pub open spec fn found_email(user: Result<User, DbError>) -> Option<Seq<char>> {
    match user {
        Ok(u) => Some(u.email@),
        Err(_) => None,
    }
}

/// The claims of a session opened at `now` for the user found (with an
/// empty e-mail when none was).
pub open spec fn api_claims(user: Result<User, DbError>, now: i64) -> (Seq<char>, usize) {
    match user {
        Ok(u) => session_claims(u.email@, now),
        Err(_) => session_claims(seq![], now),
    }
}

/// The token issued at `now` for the user found, if one was found.
pub open spec fn login_token(user: Result<User, DbError>, secret: Result<Seq<char>, Seq<char>>, now: i64) -> Result<Seq<char>, JwtErrorView> {
    match found_email(user) {
        Some(email) => generated_token(session_claims(email, now), secret),
        None => Err(JwtErrorView::InvalidToken(seq![])),
    }
}

/// Whether a login at `now` issues its token: for a user found with the
/// secret read, issuing succeeds, and a token it issues is signed with the
/// secret.
pub open spec fn login_issued(user: Result<User, DbError>, secret: Result<Seq<char>, Seq<char>>, now: i64) -> bool {
    &&& (user is Ok && secret is Ok ==> login_token(user, secret, now) is Ok)
    &&& (login_token(user, secret, now) matches Ok(t) ==> (secret matches Ok(s) && hs256_signed(t, s)))
}

/// The form-login reply at time `now` for what the credentials query
/// answered (`user`), with the secret lookup `jwt_secret`.
pub fn login_at(user: &Result<User, DbError>, jwt_secret: &Result<String, String>, now: i64) -> (r: Reply)
    requires
        now + 3600 <= i64::MAX,
    ensures
        r@ == login_reply(user is Ok, login_token(*user, secret_view(*jwt_secret), now)),
        login_issued(*user, secret_view(*jwt_secret), now),
{
    match user {
        Ok(u) => {
            let claims = session_claims_at(&u.email, now);
            match generate_token(&claims, jwt_secret) {
                Ok(token) => {
                    let mut cookie = String::from_str("token=");
                    cookie.append(token.as_str());
                    cookie.append("; Path=/; HttpOnly; SameSite=Lax; Secure; Max-Age=3600");
                    let mut headers: Vec<Header> = Vec::new();
                    headers.push(header("Location", "/chat"));
                    headers.push(header("Cache-Control", "no-cache, no-store, must-revalidate"));
                    headers.push(header("Pragma", "no-cache"));
                    headers.push(header("Expires", "0"));
                    headers.push(header_owned("Set-Cookie", cookie));
                    let r = Reply { status: FOUND, headers, body: String::new() };
                    assert(r@.headers =~= login_reply(true, Ok(token@)).headers);
                    r
                },
                Err(e) => {
                    let mut headers: Vec<Header> = Vec::new();
                    headers.push(header("Location", "/login?error=token"));
                    headers.push(header("Cache-Control", "no-store"));
                    let r = Reply { status: FOUND, headers, body: String::new() };
                    assert(r@.headers =~= login_reply(true, Err(e@)).headers);
                    r
                },
            }
        },
        Err(_) => {
            let mut headers: Vec<Header> = Vec::new();
            headers.push(header("Location", "/login?error=credentials"));
            headers.push(header("Cache-Control", "no-store"));
            let r = Reply { status: FOUND, headers, body: String::new() };
            assert(r@.headers =~= login_reply(false, Err(JwtErrorView::InvalidToken(seq![]))).headers);
            r
        },
    }
}

/// The form-login reply, the session starting at the current time.
pub fn login(user: &Result<User, DbError>, jwt_secret: &Result<String, String>) -> (r: Reply)
    ensures
        exists|now: i64| r@ == #[trigger] login_reply(user is Ok, login_token(*user, secret_view(*jwt_secret), now))
            && login_issued(*user, secret_view(*jwt_secret), now),
{
    let now = UtcTime::now();
    login_at(user, jwt_secret, now.secs())
}

/// The reply to `/auth/me`: the claims of the session as JSON.
pub fn me(token: &AuthToken) -> (r: Reply)
    ensures
        r@ == (ReplyView {
            status: OK,
            headers: seq![("content-type"@, "application/json; charset=utf-8"@)],
            body: claims_json(token.claims.sub@, token.claims.exp as nat),
        }),
{
    let mut headers: Vec<Header> = Vec::new();
    headers.push(header("content-type", "application/json; charset=utf-8"));
    let r = Reply { status: OK, headers, body: token.claims.to_json() };
    assert(r@.headers =~= seq![("content-type"@, "application/json; charset=utf-8"@)]);
    r
}

/// The plain-text content type of error replies.
pub open spec fn text_plain() -> Seq<char> {
    "text/plain; charset=utf-8"@
}

/// The reply to a JSON login: a user found and a token issued give 200
/// with the token in an `Authorization: Bearer` header and the claims as
/// the body; a token that could not be issued gives 500 with the error's
/// text; credentials that match no row give 401; another query failure
/// gives 500 with its message.
pub open spec fn api_login_reply(user: Result<User, DbError>, claims: (Seq<char>, usize), token: Result<Seq<char>, JwtErrorView>) -> ReplyView {
    match user {
        Ok(_) => match token {
            Ok(t) => ReplyView {
                status: OK,
                headers: seq![("Authorization"@, "Bearer "@ + t)],
                body: claims_json(claims.0, claims.1 as nat),
            },
            Err(e) => ReplyView {
                status: INTERNAL_SERVER_ERROR,
                headers: seq![("content-type"@, text_plain())],
                body: jwt_error_text(e),
            },
        },
        Err(e) => match db_error_view(e) {
            None => ReplyView {
                status: UNAUTHORIZED,
                headers: seq![("content-type"@, text_plain())],
                body: "Invalid credentials"@,
            },
            Some(m) => ReplyView {
                status: INTERNAL_SERVER_ERROR,
                headers: seq![("content-type"@, text_plain())],
                body: m,
            },
        },
    }
}

/// A reply with a plain-text body.
pub fn text_reply(status: u16, body: String) -> (r: Reply)
    ensures
        r@ == (ReplyView { status, headers: seq![("content-type"@, text_plain())], body: body@ }),
{
    let mut headers: Vec<Header> = Vec::new();
    headers.push(header("content-type", "text/plain; charset=utf-8"));
    let r = Reply { status, headers, body };
    assert(r@.headers =~= seq![("content-type"@, text_plain())]);
    r
}

/// The JSON-login reply at time `now` for what the credentials query
/// answered, with the secret lookup `jwt_secret`.
pub fn api_login_at(user: &Result<User, DbError>, jwt_secret: &Result<String, String>, now: i64) -> (r: Reply)
    requires
        now + 3600 <= i64::MAX,
    ensures
        r@ == api_login_reply(*user, api_claims(*user, now),
            login_token(*user, secret_view(*jwt_secret), now)),
        login_issued(*user, secret_view(*jwt_secret), now),
{
    match user {
        Ok(u) => {
            let claims = session_claims_at(&u.email, now);
            match generate_token(&claims, jwt_secret) {
                Ok(token) => {
                    let mut bearer = String::from_str("Bearer ");
                    bearer.append(token.as_str());
                    let mut headers: Vec<Header> = Vec::new();
                    headers.push(header_owned("Authorization", bearer));
                    let r = Reply { status: OK, headers, body: claims.to_json() };
                    assert(r@.headers =~= seq![("Authorization"@, "Bearer "@ + token@)]);
                    r
                },
                Err(e) => text_reply(INTERNAL_SERVER_ERROR, e.to_display()),
            }
        },
        Err(DbError::RowNotFound) => text_reply(UNAUTHORIZED, String::from_str("Invalid credentials")),
        Err(DbError::Other(m)) => text_reply(INTERNAL_SERVER_ERROR, m.clone()),
    }
}

/// The JSON-login reply, the session starting at the current time.
pub fn api_login(user: &Result<User, DbError>, jwt_secret: &Result<String, String>) -> (r: Reply)
    ensures
        exists|now: i64| r@ == #[trigger] api_login_reply(*user, api_claims(*user, now),
            login_token(*user, secret_view(*jwt_secret), now))
            && login_issued(*user, secret_view(*jwt_secret), now),
{
    let now = UtcTime::now();
    api_login_at(user, jwt_secret, now.secs())
}

} // verus!

verus! {

/// What the registration handler asks for next, or its reply.
pub enum RegisterStep {
    /// Look up a user with this e-mail or CPF.
    CheckExisting { email: String, cpf: String },
    /// Read the registration page's template.
    LoadTemplate,
    /// Look up the first company.
    FindEmpresa,
    /// Insert this user.
    Insert(User),
    /// Send this reply.
    Done(Reply),
}

/// What the caller found out for the step it was asked.
pub enum RegisterAnswer {
    /// Whether a user with the e-mail or CPF exists, or the query's error.
    Existing(Result<bool, String>),
    /// The template text, when it could be read.
    Template(Option<String>),
    /// The id of the first company, if there is one, or the query's error.
    Empresa(Result<Option<u128>, String>),
    /// Whether the insert succeeded, or its error.
    Inserted(Result<(), String>),
}

/// Whether `answer` answers the step `asked`.
pub open spec fn answers(asked: RegisterStep, answer: RegisterAnswer) -> bool {
    match asked {
        RegisterStep::CheckExisting { .. } => answer is Existing,
        RegisterStep::LoadTemplate => answer is Template,
        RegisterStep::FindEmpresa => answer is Empresa,
        RegisterStep::Insert(_) => answer is Inserted,
        RegisterStep::Done(_) => false,
    }
}

/// The page sent when the e-mail or CPF is taken: a warning above the
/// registration form.
pub open spec fn conflict_page(template: Seq<char>) -> Seq<char> {
    "\n                <div class='text-red-600 p-4 mb-4 bg-red-50 rounded'>\n                    Email ou CPF já cadastrado. Por favor, tente novamente.\n                </div>\n                "@
        + template + "\n            "@
}

/// The reply after a successful registration.
pub open spec fn registered_reply() -> ReplyView {
    ReplyView {
        status: FOUND,
        headers: seq![("Location"@, "/login"@), ("content-type"@, text_plain())],
        body: "Usuário cadastrado com sucesso. Redirecionando para o login..."@,
    }
}

/// The user that registration inserts: the payload's fields, the company
/// `empresa_id`, a fresh random id, and one instant for both timestamps.
pub open spec fn registered_user(u: User, payload: RegisterPayload, empresa_id: u128) -> bool {
    &&& u.empresa_id == empresa_id
    &&& is_v4(u.id)
    &&& u.nome@ == payload.nome@
    &&& u.cpf@ == payload.cpf@
    &&& u.telefone@ == payload.telefone@
    &&& u.email@ == payload.email@
    &&& u.password@ == payload.password@
    &&& u.categoria@ == payload.categoria@
    &&& u.created_at.spec_secs() == u.updated_at.spec_secs()
    &&& u.created_at.spec_nanos() == u.updated_at.spec_nanos()
}

/// Registration starts by looking up the e-mail and CPF.
pub fn register(payload: &RegisterPayload) -> (r: RegisterStep)
    ensures
        r matches RegisterStep::CheckExisting { email, cpf } && email@ == payload.email@ && cpf@ == payload.cpf@,
{
    RegisterStep::CheckExisting { email: payload.email.clone(), cpf: payload.cpf.clone() }
}

/// The next step of registration once `answer` came for `asked`.
pub fn register_next(payload: &RegisterPayload, asked: &RegisterStep, answer: RegisterAnswer) -> (r: RegisterStep)
    requires
        answers(*asked, answer),
    ensures
        answer matches RegisterAnswer::Existing(Err(e)) ==> (r matches RegisterStep::Done(rep)
            && rep@ == (ReplyView { status: INTERNAL_SERVER_ERROR, headers: seq![("content-type"@, text_plain())], body: e@ })),
        answer matches RegisterAnswer::Existing(Ok(found)) ==> (if found { r is LoadTemplate } else { r is FindEmpresa }),
        answer matches RegisterAnswer::Template(t) ==> (r matches RegisterStep::Done(rep)
            && rep@ == (ReplyView {
                status: CONFLICT,
                headers: seq![("content-type"@, "text/html; charset=utf-8"@)],
                body: conflict_page(match t { Some(s) => s@, None => seq![] }),
            })),
        answer matches RegisterAnswer::Empresa(Err(e)) ==> (r matches RegisterStep::Done(rep)
            && rep@ == (ReplyView { status: INTERNAL_SERVER_ERROR, headers: seq![("content-type"@, text_plain())], body: e@ })),
        answer matches RegisterAnswer::Empresa(Ok(found)) ==> (r matches RegisterStep::Insert(u) && (match found {
            Some(id) => registered_user(u, *payload, id),
            None => registered_user(u, *payload, u.empresa_id) && is_v4(u.empresa_id),
        })),
        answer matches RegisterAnswer::Inserted(Ok(_)) ==> (r matches RegisterStep::Done(rep) && rep@ == registered_reply()),
        answer matches RegisterAnswer::Inserted(Err(e)) ==> (r matches RegisterStep::Done(rep)
            && rep@ == (ReplyView { status: INTERNAL_SERVER_ERROR, headers: seq![("content-type"@, text_plain())], body: e@ })),
{
    match answer {
        RegisterAnswer::Existing(Err(e)) => RegisterStep::Done(text_reply(INTERNAL_SERVER_ERROR, e)),
        RegisterAnswer::Existing(Ok(found)) => if found {
            RegisterStep::LoadTemplate
        } else {
            RegisterStep::FindEmpresa
        },
        RegisterAnswer::Template(t) => {
            let mut body = String::from_str("\n                <div class='text-red-600 p-4 mb-4 bg-red-50 rounded'>\n                    Email ou CPF já cadastrado. Por favor, tente novamente.\n                </div>\n                ");
            match &t {
                Some(s) => body.append(s.as_str()),
                None => {},
            }
            body.append("\n            ");
            let mut headers: Vec<Header> = Vec::new();
            headers.push(header("content-type", "text/html; charset=utf-8"));
            let rep = Reply { status: CONFLICT, headers, body };
            assert(rep@.headers =~= seq![("content-type"@, "text/html; charset=utf-8"@)]);
            assert(rep@.body =~= conflict_page(match t { Some(s) => s@, None => seq![] }));
            RegisterStep::Done(rep)
        },
        RegisterAnswer::Empresa(Err(e)) => RegisterStep::Done(text_reply(INTERNAL_SERVER_ERROR, e)),
        RegisterAnswer::Empresa(Ok(found)) => {
            let empresa_id = match found {
                Some(id) => id,
                None => new_uuid_v4(),
            };
            let user_id = new_uuid_v4();
            let now = UtcTime::now();
            let user = User {
                id: user_id,
                empresa_id,
                nome: payload.nome.clone(),
                cpf: payload.cpf.clone(),
                telefone: payload.telefone.clone(),
                email: payload.email.clone(),
                password: payload.password.clone(),
                categoria: payload.categoria.clone(),
                created_at: now.copy(),
                updated_at: now,
            };
            RegisterStep::Insert(user)
        },
        RegisterAnswer::Inserted(Ok(_)) => {
            let mut headers: Vec<Header> = Vec::new();
            headers.push(header("Location", "/login"));
            headers.push(header("content-type", "text/plain; charset=utf-8"));
            let rep = Reply {
                status: FOUND,
                headers,
                body: String::from_str("Usuário cadastrado com sucesso. Redirecionando para o login..."),
            };
            assert(rep@.headers =~= registered_reply().headers);
            RegisterStep::Done(rep)
        },
        RegisterAnswer::Inserted(Err(e)) => RegisterStep::Done(text_reply(INTERNAL_SERVER_ERROR, e)),
    }
}

} // verus!
