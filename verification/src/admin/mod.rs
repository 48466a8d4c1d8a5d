//! The decisions of the administration handlers: companies and users.
//! The database queries are made by the caller, which hands their answers in.
use vstd::prelude::*;
use vstd::string::*;
use crate::auth::token::{current_timestamp, secret_view, signed_with, validate_token_at, validated, VALIDATION_LEEWAY};
use crate::auth::handler::text_plain;
use crate::http::{header, message_error, status_error, Header, HttpError, Reply, ReplyView, BAD_REQUEST, CONFLICT, FOUND, INTERNAL_SERVER_ERROR, NO_CONTENT, OK, UNAUTHORIZED};
use crate::ids::{new_uuid_v4, uuid_text, uuid_to_string, UtcTime};
use crate::json::{json_array, json_quoted, joined, lemma_joined_push, push_quoted};
use crate::models::empresas::Empresa;
use crate::models::users::is_v4;

verus! {

/// A company's name and CNPJ.
pub struct EmpresaPayload {
    pub nome: String,
    pub cnpj: String,
}

/// A company as the company list shows it.
pub struct EmpresaResponse {
    pub id: u128,
    pub nome: String,
    pub cnpj: String,
}

/// The form body that creates a company.
pub struct CreateEmpresaPayload {
    pub nome: String,
    pub cnpj: String,
}

/// The view of a step's outcome: a reply, or an error in its place.
pub open spec fn outcome_view(r: Result<Reply, HttpError>) -> Result<ReplyView, (u16, Option<Seq<char>>)> {
    match r {
        Ok(rep) => Ok(rep@),
        Err(e) => Err(e@),
    }
}

/// A query failure turned into a 500 error carrying its message.
pub open spec fn db_failure(m: Seq<char>) -> Result<ReplyView, (u16, Option<Seq<char>>)> {
    Err((INTERNAL_SERVER_ERROR, Some(m)))
}

/// The view of the outcome of a check.
pub open spec fn check_view(r: Result<(), HttpError>) -> Result<(), (u16, Option<Seq<char>>)> {
    match r {
        Ok(()) => Ok(()),
        Err(e) => Err(e@),
    }
}

/// The admin token check at `now`: a token accepted with the secret lookup
/// `secret` gives `Ok`, any other a bare 401.
pub open spec fn admin_token_check(token: Seq<char>, secret: Result<Seq<char>, Seq<char>>, now: u64) -> Result<(), (u16, Option<Seq<char>>)> {
    if validated(token, secret, now, VALIDATION_LEEWAY) is Ok {
        Ok(())
    } else {
        Err((UNAUTHORIZED, None))
    }
}

/// The admin check at `now` of a request, given its `token` cookie as the
/// cookie jar read it: no cookie gives a bare 401, an unreadable cookie its
/// error, and a readable one `admin_token_check`.
pub open spec fn admin_cookie_check(cookie: Option<Result<String, HttpError>>, secret: Result<Seq<char>, Seq<char>>, now: u64) -> Result<(), (u16, Option<Seq<char>>)> {
    match cookie {
        None => Err((UNAUTHORIZED, None)),
        Some(Err(e)) => Err(e@),
        Some(Ok(v)) => admin_token_check(v@, secret, now),
    }
}

/// Whether a check that passed saw a cookie token signed with the secret.
pub open spec fn cookie_signed(cookie: Option<Result<String, HttpError>>, secret: Result<Seq<char>, Seq<char>>) -> bool {
    cookie matches Some(Ok(v)) && signed_with(v@, secret)
}

/// The admin token check at the instant `now`, as `admin_token_check`
/// says; a token that passes is signed with the secret.
pub fn validate_admin_token_at(token: &str, jwt_secret: &Result<String, String>, now: u64) -> (r: Result<(), HttpError>)
    ensures
        check_view(r) == admin_token_check(token@, secret_view(*jwt_secret), now),
        r is Ok ==> signed_with(token@, secret_view(*jwt_secret)),
{
    match validate_token_at(token, jwt_secret, now) {
        Ok(_) => Ok(()),
        Err(_) => Err(status_error(UNAUTHORIZED)),
    }
}

/// The admin token check at the current time, as
/// `validate_admin_token_at` does.
pub fn validate_admin_token(token: &str, jwt_secret: &Result<String, String>) -> (r: Result<(), HttpError>)
    ensures
        exists|now: u64| #[trigger] admin_token_check(token@, secret_view(*jwt_secret), now) == check_view(r),
        r is Ok ==> signed_with(token@, secret_view(*jwt_secret)),
{
    let now = current_timestamp();
    validate_admin_token_at(token, jwt_secret, now)
}

/// The admin check of a request at the instant `now`, as
/// `admin_cookie_check` says; a request that passes carried a token signed
/// with the secret.
pub fn check_admin_token_at(cookie: Option<Result<String, HttpError>>, jwt_secret: &Result<String, String>, now: u64) -> (r: Result<(), HttpError>)
    ensures
        check_view(r) == admin_cookie_check(cookie, secret_view(*jwt_secret), now),
        r is Ok ==> cookie_signed(cookie, secret_view(*jwt_secret)),
{
    match cookie {
        None => Err(status_error(UNAUTHORIZED)),
        Some(Err(e)) => Err(e),
        Some(Ok(v)) => validate_admin_token_at(v.as_str(), jwt_secret, now),
    }
}

/// The admin check of a request at the current time, as
/// `check_admin_token_at` does.
pub fn check_admin_token(cookie: Option<Result<String, HttpError>>, jwt_secret: &Result<String, String>) -> (r: Result<(), HttpError>)
    ensures
        exists|now: u64| #[trigger] admin_cookie_check(cookie, secret_view(*jwt_secret), now) == check_view(r),
        r is Ok ==> cookie_signed(cookie, secret_view(*jwt_secret)),
{
    let now = current_timestamp();
    check_admin_token_at(cookie, jwt_secret, now)
}

/// The JSON object of a listed company, fields in declaration order.
pub open spec fn empresa_json(e: EmpresaResponse) -> Seq<char> {
    "{\"id\":"@ + json_quoted(uuid_text(e.id)) + ",\"nome\":"@ + json_quoted(e.nome@) + ",\"cnpj\":"@
        + json_quoted(e.cnpj@) + "}"@
}

/// The JSON array of listed companies.
pub open spec fn empresas_json(rows: Seq<EmpresaResponse>) -> Seq<char> {
    json_array(rows.map_values(|e: EmpresaResponse| empresa_json(e)))
}

fn push_empresa_json(out: &mut String, e: &EmpresaResponse)
    ensures
        final(out)@ == old(out)@ + empresa_json(*e),
{
    out.append("{\"id\":");
    let id = uuid_to_string(e.id);
    push_quoted(out, id.as_str());
    out.append(",\"nome\":");
    push_quoted(out, e.nome.as_str());
    out.append(",\"cnpj\":");
    push_quoted(out, e.cnpj.as_str());
    out.append("}");
    assert(final(out)@ =~= old(out)@ + empresa_json(*e));
}

/// The reply to the company list: the companies as JSON, or the query's
/// failure as a 500 error.
pub fn list_empresas(rows: &Result<Vec<EmpresaResponse>, String>) -> (r: Result<Reply, HttpError>)
    ensures
        rows matches Ok(v) ==> outcome_view(r) == Ok::<ReplyView, (u16, Option<Seq<char>>)>(ReplyView {
            status: OK,
            headers: seq![("content-type"@, "application/json"@)],
            body: empresas_json(v@),
        }),
        rows matches Err(m) ==> outcome_view(r) == db_failure(m@),
{
    let v = match rows {
        Err(m) => return Err(message_error(INTERNAL_SERVER_ERROR, m.clone())),
        Ok(v) => v,
    };
    let ghost items = v@.map_values(|e: EmpresaResponse| empresa_json(e));
    let mut out = String::from_str("[");
    let mut i: usize = 0;
    proof {
        reveal_strlit("[");
        assert(joined(items.take(0)) =~= seq![]);
        assert(out@ =~= seq!['['] + joined(items.take(0)));
    }
    while i < v.len()
        invariant
            i <= v@.len(),
            items == v@.map_values(|e: EmpresaResponse| empresa_json(e)),
            out@ == seq!['['] + joined(items.take(i as int)),
        decreases v@.len() - i,
    {
        proof {
            lemma_joined_push(items, i as int);
        }
        if i > 0 {
            out.append(",");
            assert(","@ =~= seq![',']) by { reveal_strlit(","); }
        }
        push_empresa_json(&mut out, &v[i]);
        i = i + 1;
    }
    out.append("]");
    proof {
        reveal_strlit("]");
        assert(items.take(v@.len() as int) =~= items);
    }
    let mut headers: Vec<Header> = Vec::new();
    headers.push(header("content-type", "application/json"));
    let rep = Reply { status: OK, headers, body: out };
    assert(rep@.headers =~= seq![("content-type"@, "application/json"@)]);
    assert(rep@.body =~= empresas_json(v@));
    Ok(rep)
}

} // verus!

verus! {

/// A reply with a body and no other header.
pub fn body_reply(status: u16, body: &str) -> (r: Reply)
    ensures
        r@ == (ReplyView { status, headers: seq![], body: body@ }),
{
    let r = Reply { status, headers: Vec::new(), body: String::from_str(body) };
    assert(r@.headers =~= seq![]);
    r
}

/// What creating a company asks for next, or its outcome.
pub enum CreateEmpresaStep {
    /// Look up a company with this CNPJ.
    FindCnpj(String),
    /// Insert this company.
    Insert(Empresa),
    /// The handler's outcome.
    Done(Result<Reply, HttpError>),
}

/// What the caller found out for the step it was asked.
pub enum CreateEmpresaAnswer {
    /// Whether a company with the CNPJ exists, or the query's error.
    Found(Result<bool, String>),
    /// Whether the insert succeeded, or its error.
    Inserted(Result<(), String>),
}

/// How creating a company starts at `now`: a request that fails the admin
/// check ends with the check's error; one that passes it looks up the
/// CNPJ `cnpj`.
pub open spec fn create_empresa_start(cnpj: Seq<char>, cookie: Option<Result<String, HttpError>>, secret: Result<Seq<char>, Seq<char>>, now: u64, r: CreateEmpresaStep) -> bool {
    match admin_cookie_check(cookie, secret, now) {
        Err(e) => (r matches CreateEmpresaStep::Done(Err(x)) && x@ == e),
        Ok(()) => (r matches CreateEmpresaStep::FindCnpj(c) && c@ == cnpj),
    }
}

/// Creating a company at the instant `now`, as `create_empresa_start`
/// says; the CNPJ is looked up only for a token signed with the secret.
pub fn create_empresa_at(payload: &CreateEmpresaPayload, cookie: Option<Result<String, HttpError>>, jwt_secret: &Result<String, String>, now: u64) -> (r: CreateEmpresaStep)
    ensures
        create_empresa_start(payload.cnpj@, cookie, secret_view(*jwt_secret), now, r),
        r is FindCnpj ==> cookie_signed(cookie, secret_view(*jwt_secret)),
{
    match check_admin_token_at(cookie, jwt_secret, now) {
        Err(e) => CreateEmpresaStep::Done(Err(e)),
        Ok(()) => CreateEmpresaStep::FindCnpj(payload.cnpj.clone()),
    }
}

/// Creating a company starts with the admin check at the current time, as
/// `create_empresa_at` does.
pub fn create_empresa(payload: &CreateEmpresaPayload, cookie: Option<Result<String, HttpError>>, jwt_secret: &Result<String, String>) -> (r: CreateEmpresaStep)
    ensures
        exists|now: u64| #[trigger] create_empresa_start(payload.cnpj@, cookie, secret_view(*jwt_secret), now, r),
        r is FindCnpj ==> cookie_signed(cookie, secret_view(*jwt_secret)),
{
    let now = current_timestamp();
    create_empresa_at(payload, cookie, jwt_secret, now)
}

/// The next step of creating a company once `answer` came: a query error
/// is a 500 error with its message; a CNPJ already registered is a 409;
/// otherwise the company is inserted with a fresh random id and one
/// instant for both timestamps, and then the admin page is shown.
pub fn create_empresa_next(payload: &CreateEmpresaPayload, answer: CreateEmpresaAnswer) -> (r: CreateEmpresaStep)
    ensures
        answer matches CreateEmpresaAnswer::Found(Err(m)) ==> (r matches CreateEmpresaStep::Done(d) && outcome_view(d) == db_failure(m@)),
        answer matches CreateEmpresaAnswer::Found(Ok(true)) ==> (r matches CreateEmpresaStep::Done(d)
            && outcome_view(d) == Ok::<ReplyView, (u16, Option<Seq<char>>)>(ReplyView {
                status: CONFLICT, headers: seq![("content-type"@, "text/html"@)], body: "CNPJ já cadastrado."@ })),
        answer matches CreateEmpresaAnswer::Found(Ok(false)) ==> (r matches CreateEmpresaStep::Insert(e)
            && is_v4(e.id) && e.nome@ == payload.nome@ && e.cnpj@ == payload.cnpj@
            && e.created_at.spec_secs() == e.updated_at.spec_secs() && e.created_at.spec_nanos() == e.updated_at.spec_nanos()),
        answer matches CreateEmpresaAnswer::Inserted(Err(m)) ==> (r matches CreateEmpresaStep::Done(d) && outcome_view(d) == db_failure(m@)),
        answer matches CreateEmpresaAnswer::Inserted(Ok(_)) ==> (r matches CreateEmpresaStep::Done(d)
            && outcome_view(d) == Ok::<ReplyView, (u16, Option<Seq<char>>)>(ReplyView {
                status: FOUND, headers: seq![("Location"@, "/admin"@)], body: "Empresa cadastrada com sucesso."@ })),
{
    match answer {
        CreateEmpresaAnswer::Found(Err(m)) => CreateEmpresaStep::Done(Err(message_error(INTERNAL_SERVER_ERROR, m))),
        CreateEmpresaAnswer::Found(Ok(true)) => {
            let mut headers: Vec<Header> = Vec::new();
            headers.push(header("content-type", "text/html"));
            let rep = Reply { status: CONFLICT, headers, body: String::from_str("CNPJ já cadastrado.") };
            assert(rep@.headers =~= seq![("content-type"@, "text/html"@)]);
            CreateEmpresaStep::Done(Ok(rep))
        },
        CreateEmpresaAnswer::Found(Ok(false)) => {
            let id = new_uuid_v4();
            let now = UtcTime::now();
            CreateEmpresaStep::Insert(Empresa {
                id,
                nome: payload.nome.clone(),
                cnpj: payload.cnpj.clone(),
                created_at: now.copy(),
                updated_at: now,
            })
        },
        CreateEmpresaAnswer::Inserted(Err(m)) => CreateEmpresaStep::Done(Err(message_error(INTERNAL_SERVER_ERROR, m))),
        CreateEmpresaAnswer::Inserted(Ok(_)) => {
            let mut headers: Vec<Header> = Vec::new();
            headers.push(header("Location", "/admin"));
            let rep = Reply { status: FOUND, headers, body: String::from_str("Empresa cadastrada com sucesso.") };
            assert(rep@.headers =~= seq![("Location"@, "/admin"@)]);
            CreateEmpresaStep::Done(Ok(rep))
        },
    }
}

/// What deleting a company asks for next, or its outcome.
pub enum DeleteEmpresaStep {
    /// Count the users of the company with this id.
    CountUsers(u128),
    /// Delete the company with this id.
    Delete(u128),
    /// The handler's outcome.
    Done(Result<Reply, HttpError>),
}

/// What the caller found out for the step it was asked.
pub enum DeleteEmpresaAnswer {
    /// The number of users (a nullable count), or the query's error.
    Counted(Result<Option<i64>, String>),
    /// Whether the delete succeeded, or its error.
    Deleted(Result<(), String>),
}

/// Deleting a company starts by counting its users.
pub fn delete_empresa(id: u128) -> (r: DeleteEmpresaStep)
    ensures
        r == DeleteEmpresaStep::CountUsers(id),
{
    DeleteEmpresaStep::CountUsers(id)
}

/// The next step of deleting the company `id` once `answer` came: a query
/// error is a 500 error with its message; a company with users is not
/// deleted (400); otherwise it is deleted and the reply is 204.
pub fn delete_empresa_next(id: u128, answer: DeleteEmpresaAnswer) -> (r: DeleteEmpresaStep)
    ensures
        answer matches DeleteEmpresaAnswer::Counted(Err(m)) ==> (r matches DeleteEmpresaStep::Done(d) && outcome_view(d) == db_failure(m@)),
        answer matches DeleteEmpresaAnswer::Counted(Ok(c)) ==> (if (match c { Some(n) => n, None => 0 }) > 0 {
            r matches DeleteEmpresaStep::Done(d) && outcome_view(d) == Ok::<ReplyView, (u16, Option<Seq<char>>)>(ReplyView {
                status: BAD_REQUEST, headers: seq![], body: "Não é possível excluir uma empresa que possui usuários"@ })
        } else {
            r == DeleteEmpresaStep::Delete(id)
        }),
        answer matches DeleteEmpresaAnswer::Deleted(Err(m)) ==> (r matches DeleteEmpresaStep::Done(d) && outcome_view(d) == db_failure(m@)),
        answer matches DeleteEmpresaAnswer::Deleted(Ok(_)) ==> (r matches DeleteEmpresaStep::Done(d)
            && outcome_view(d) == Ok::<ReplyView, (u16, Option<Seq<char>>)>(ReplyView { status: NO_CONTENT, headers: seq![], body: seq![] })),
{
    match answer {
        DeleteEmpresaAnswer::Counted(Err(m)) => DeleteEmpresaStep::Done(Err(message_error(INTERNAL_SERVER_ERROR, m))),
        DeleteEmpresaAnswer::Counted(Ok(c)) => {
            let n: i64 = match c {
                Some(n) => n,
                None => 0,
            };
            if n > 0 {
                DeleteEmpresaStep::Done(Ok(body_reply(BAD_REQUEST, "Não é possível excluir uma empresa que possui usuários")))
            } else {
                DeleteEmpresaStep::Delete(id)
            }
        },
        DeleteEmpresaAnswer::Deleted(Err(m)) => DeleteEmpresaStep::Done(Err(message_error(INTERNAL_SERVER_ERROR, m))),
        DeleteEmpresaAnswer::Deleted(Ok(_)) => {
            let rep = Reply { status: NO_CONTENT, headers: Vec::new(), body: String::new() };
            assert(rep@.headers =~= seq![]);
            DeleteEmpresaStep::Done(Ok(rep))
        },
    }
}

/// What deleting a user asks for next, or its outcome.
pub enum DeleteUsuarioStep {
    /// Look up the id of the user with this e-mail (the caller's own).
    FindCurrentUser(String),
    /// Delete the user with this id.
    Delete(u128),
    /// The handler's outcome.
    Done(Result<Reply, HttpError>),
}

/// What the caller found out for the step it was asked.
pub enum DeleteUsuarioAnswer {
    /// The id of the caller's own user, or the query's error.
    Found(Result<u128, String>),
    /// Whether the delete succeeded, or its error.
    Deleted(Result<(), String>),
}

/// How deleting a user starts at `now`: no `token` cookie, an unreadable
/// one, or a token that is not accepted gives a bare 401; an accepted
/// token looks up the caller's own user by the token's e-mail.
pub open spec fn delete_usuario_start(cookie: Option<Result<String, ()>>, secret: Result<Seq<char>, Seq<char>>, now: u64, r: DeleteUsuarioStep) -> bool {
    match cookie {
        Some(Ok(v)) => match validated(v@, secret, now, VALIDATION_LEEWAY) {
            Ok(c) => (r matches DeleteUsuarioStep::FindCurrentUser(e) && e@ == c.0),
            Err(_) => (r matches DeleteUsuarioStep::Done(d) && outcome_view(d) == Err::<ReplyView, (u16, Option<Seq<char>>)>((UNAUTHORIZED, None))),
        },
        _ => (r matches DeleteUsuarioStep::Done(d) && outcome_view(d) == Err::<ReplyView, (u16, Option<Seq<char>>)>((UNAUTHORIZED, None))),
    }
}

/// Deleting a user at the instant `now`, as `delete_usuario_start` says;
/// the caller is looked up only for a token signed with the secret.
pub fn delete_usuario_at(cookie: Option<Result<String, ()>>, jwt_secret: &Result<String, String>, now: u64) -> (r: DeleteUsuarioStep)
    ensures
        delete_usuario_start(cookie, secret_view(*jwt_secret), now, r),
        r is FindCurrentUser ==> (cookie matches Some(Ok(v)) && signed_with(v@, secret_view(*jwt_secret))),
{
    let value = match cookie {
        None => return DeleteUsuarioStep::Done(Err(status_error(UNAUTHORIZED))),
        Some(Err(_)) => return DeleteUsuarioStep::Done(Err(status_error(UNAUTHORIZED))),
        Some(Ok(v)) => v,
    };
    match validate_token_at(value.as_str(), jwt_secret, now) {
        Err(_) => DeleteUsuarioStep::Done(Err(status_error(UNAUTHORIZED))),
        Ok(claims) => DeleteUsuarioStep::FindCurrentUser(claims.sub),
    }
}

/// Deleting a user starts with the caller's session at the current time,
/// as `delete_usuario_at` does.
pub fn delete_usuario(cookie: Option<Result<String, ()>>, jwt_secret: &Result<String, String>) -> (r: DeleteUsuarioStep)
    ensures
        exists|now: u64| #[trigger] delete_usuario_start(cookie, secret_view(*jwt_secret), now, r),
        r is FindCurrentUser ==> (cookie matches Some(Ok(v)) && signed_with(v@, secret_view(*jwt_secret))),
{
    let now = current_timestamp();
    delete_usuario_at(cookie, jwt_secret, now)
}

/// The next step of deleting the user `id` once `answer` came: a query
/// error is a 500 error with its message; a user may not delete itself
/// (400); otherwise the user is deleted and the reply is 204.
pub fn delete_usuario_next(id: u128, answer: DeleteUsuarioAnswer) -> (r: DeleteUsuarioStep)
    ensures
        answer matches DeleteUsuarioAnswer::Found(Err(m)) ==> (r matches DeleteUsuarioStep::Done(d) && outcome_view(d) == db_failure(m@)),
        answer matches DeleteUsuarioAnswer::Found(Ok(current)) ==> (if current == id {
            r matches DeleteUsuarioStep::Done(d) && outcome_view(d) == Ok::<ReplyView, (u16, Option<Seq<char>>)>(ReplyView {
                status: BAD_REQUEST, headers: seq![], body: "Não é possível excluir o próprio usuário"@ })
        } else {
            r == DeleteUsuarioStep::Delete(id)
        }),
        answer matches DeleteUsuarioAnswer::Deleted(Err(m)) ==> (r matches DeleteUsuarioStep::Done(d) && outcome_view(d) == db_failure(m@)),
        answer matches DeleteUsuarioAnswer::Deleted(Ok(_)) ==> (r matches DeleteUsuarioStep::Done(d)
            && outcome_view(d) == Ok::<ReplyView, (u16, Option<Seq<char>>)>(ReplyView { status: NO_CONTENT, headers: seq![], body: seq![] })),
{
    match answer {
        DeleteUsuarioAnswer::Found(Err(m)) => DeleteUsuarioStep::Done(Err(message_error(INTERNAL_SERVER_ERROR, m))),
        DeleteUsuarioAnswer::Found(Ok(current)) => if current == id {
            DeleteUsuarioStep::Done(Ok(body_reply(BAD_REQUEST, "Não é possível excluir o próprio usuário")))
        } else {
            DeleteUsuarioStep::Delete(id)
        },
        DeleteUsuarioAnswer::Deleted(Err(m)) => DeleteUsuarioStep::Done(Err(message_error(INTERNAL_SERVER_ERROR, m))),
        DeleteUsuarioAnswer::Deleted(Ok(_)) => {
            let rep = Reply { status: NO_CONTENT, headers: Vec::new(), body: String::new() };
            assert(rep@.headers =~= seq![]);
            DeleteUsuarioStep::Done(Ok(rep))
        },
    }
}

/// A user as the user list reads it, with the name of its company when
/// the company exists.
pub struct UsuarioRow {
    pub id: u128,
    pub nome: String,
    pub email: String,
    pub categoria: String,
    pub empresa_nome: Option<String>,
}

/// The JSON object of a listed user; `serde_json::json!` builds a map
/// whose keys come out sorted.
pub open spec fn usuario_json(u: UsuarioRow) -> Seq<char> {
    "{\"categoria\":"@ + json_quoted(u.categoria@) + ",\"email\":"@ + json_quoted(u.email@) + ",\"empresa\":"@
        + (match u.empresa_nome { Some(n) => json_quoted(n@), None => "null"@ }) + ",\"id\":"@
        + json_quoted(uuid_text(u.id)) + ",\"nome\":"@ + json_quoted(u.nome@) + "}"@
}

/// The JSON array of listed users.
pub open spec fn usuarios_json(rows: Seq<UsuarioRow>) -> Seq<char> {
    json_array(rows.map_values(|u: UsuarioRow| usuario_json(u)))
}

fn push_usuario_json(out: &mut String, u: &UsuarioRow)
    ensures
        final(out)@ == old(out)@ + usuario_json(*u),
{
    out.append("{\"categoria\":");
    push_quoted(out, u.categoria.as_str());
    out.append(",\"email\":");
    push_quoted(out, u.email.as_str());
    out.append(",\"empresa\":");
    match &u.empresa_nome {
        Some(n) => push_quoted(out, n.as_str()),
        None => out.append("null"),
    }
    out.append(",\"id\":");
    let id = uuid_to_string(u.id);
    push_quoted(out, id.as_str());
    out.append(",\"nome\":");
    push_quoted(out, u.nome.as_str());
    out.append("}");
    assert(final(out)@ =~= old(out)@ + usuario_json(*u));
}

/// The reply to the user list: the users as JSON, or the query's failure
/// as a 500 error.
pub fn list_usuarios(rows: &Result<Vec<UsuarioRow>, String>) -> (r: Result<Reply, HttpError>)
    ensures
        rows matches Ok(v) ==> outcome_view(r) == Ok::<ReplyView, (u16, Option<Seq<char>>)>(ReplyView {
            status: OK,
            headers: seq![("content-type"@, "application/json"@)],
            body: usuarios_json(v@),
        }),
        rows matches Err(m) ==> outcome_view(r) == db_failure(m@),
{
    let v = match rows {
        Err(m) => return Err(message_error(INTERNAL_SERVER_ERROR, m.clone())),
        Ok(v) => v,
    };
    let ghost items = v@.map_values(|u: UsuarioRow| usuario_json(u));
    let mut out = String::from_str("[");
    let mut i: usize = 0;
    proof {
        reveal_strlit("[");
        assert(joined(items.take(0)) =~= seq![]);
        assert(out@ =~= seq!['['] + joined(items.take(0)));
    }
    while i < v.len()
        invariant
            i <= v@.len(),
            items == v@.map_values(|u: UsuarioRow| usuario_json(u)),
            out@ == seq!['['] + joined(items.take(i as int)),
        decreases v@.len() - i,
    {
        proof {
            lemma_joined_push(items, i as int);
        }
        if i > 0 {
            out.append(",");
            assert(","@ =~= seq![',']) by { reveal_strlit(","); }
        }
        push_usuario_json(&mut out, &v[i]);
        i = i + 1;
    }
    out.append("]");
    proof {
        reveal_strlit("]");
        assert(items.take(v@.len() as int) =~= items);
    }
    let mut headers: Vec<Header> = Vec::new();
    headers.push(header("content-type", "application/json"));
    let rep = Reply { status: OK, headers, body: out };
    assert(rep@.headers =~= seq![("content-type"@, "application/json"@)]);
    assert(rep@.body =~= usuarios_json(v@));
    Ok(rep)
}

} // verus!
