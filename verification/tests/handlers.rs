use psocial3::auth::dto::{AuthToken, Claims, RegisterPayload};
use psocial3::auth::handler::{api_login_at, login_at, logout, me, register_next, register, session_claims_at, RegisterAnswer, RegisterStep};
use psocial3::auth::token::validate_token;
use psocial3::auth::{AdminMiddleware, ChatMiddleware, Gate};
use psocial3::db::DbError;
use psocial3::http::Reply;
use psocial3::ids::UtcTime;
use psocial3::models::users::User;

fn secret() -> Result<String, String> {
    Ok("handler-secret".to_string())
}

fn headers(r: &Reply) -> Vec<(String, String)> {
    r.headers.iter().map(|h| (h.name.clone(), h.value.clone())).collect()
}

fn h(n: &str, v: &str) -> (String, String) {
    (n.to_string(), v.to_string())
}

fn user(email: &str) -> User {
    User {
        id: 1,
        empresa_id: 2,
        nome: "N".to_string(),
        cpf: "C".to_string(),
        telefone: "T".to_string(),
        email: email.to_string(),
        password: "p".to_string(),
        categoria: "user".to_string(),
        created_at: UtcTime::now(),
        updated_at: UtcTime::now(),
    }
}

#[test]
fn logout_clears_the_cookie() {
    let r = logout();
    assert_eq!(r.status, 302);
    assert_eq!(headers(&r), vec![h("Location", "/login"), h("Set-Cookie", "token=; Path=/; HttpOnly; SameSite=Lax; Secure; Max-Age=0")]);
    assert_eq!(r.body, "");
}

#[test]
fn session_lasts_an_hour() {
    let c = session_claims_at(&"a@b".to_string(), 1_700_000_000);
    assert_eq!(c.exp, 1_700_003_600);
    assert_eq!(c.sub, "a@b");
}

#[test]
fn login_sets_session_cookie_that_validates() {
    let now = chrono::Utc::now().timestamp();
    let r = login_at(&Ok(user("joao@example.com")), &secret(), now);
    assert_eq!(r.status, 302);
    let hs = headers(&r);
    assert_eq!(hs[0], h("Location", "/chat"));
    assert_eq!(hs[1], h("Cache-Control", "no-cache, no-store, must-revalidate"));
    assert_eq!(hs[2], h("Pragma", "no-cache"));
    assert_eq!(hs[3], h("Expires", "0"));
    assert_eq!(hs[4].0, "Set-Cookie");
    let cookie = &hs[4].1;
    assert!(cookie.starts_with("token="));
    assert!(cookie.ends_with("; Path=/; HttpOnly; SameSite=Lax; Secure; Max-Age=3600"));
    let token = cookie.trim_start_matches("token=").split(';').next().unwrap();
    // What the browser sends back reads back to the same session.
    let sent = format!("theme=dark; token={}", token);
    let read = psocial3::auth::get_token_from_cookie(Some(sent.as_bytes())).unwrap();
    let claims = validate_token(&read, &secret()).ok().unwrap();
    assert_eq!(claims.sub, "joao@example.com");
    assert_eq!(claims.exp as i64, now + 3600);
    match ChatMiddleware::check(Some(sent.as_bytes()), &secret()) {
        Gate::Pass => {},
        _ => panic!("chat should pass"),
    }
    match AdminMiddleware::check(Some(sent.as_bytes()), &secret()) {
        Gate::Pass => {},
        _ => panic!("admin should pass"),
    }
}

#[test]
fn login_with_bad_credentials() {
    let r = login_at(&Err(DbError::RowNotFound), &secret(), 0);
    assert_eq!(r.status, 302);
    assert_eq!(headers(&r), vec![h("Location", "/login?error=credentials"), h("Cache-Control", "no-store")]);
    let r = login_at(&Err(DbError::Other("db down".to_string())), &secret(), 0);
    assert_eq!(headers(&r)[0], h("Location", "/login?error=credentials"));
}

#[test]
fn login_without_secret() {
    let r = login_at(&Ok(user("a")), &Err("missing".to_string()), 0);
    assert_eq!(headers(&r), vec![h("Location", "/login?error=token"), h("Cache-Control", "no-store")]);
}

#[test]
fn api_login_replies() {
    let r = api_login_at(&Ok(user("a@b")), &secret(), 1000);
    assert_eq!(r.status, 200);
    assert_eq!(r.body, "{\"sub\":\"a@b\",\"exp\":4600}");
    let hs = headers(&r);
    assert_eq!(hs.len(), 1);
    assert_eq!(hs[0].0, "Authorization");
    let b = psocial3::auth::jwt::bearer_token(Some(hs[0].1.as_bytes()));
    assert!(b.is_some());
    let r = api_login_at(&Err(DbError::RowNotFound), &secret(), 0);
    assert_eq!((r.status, r.body.as_str()), (401, "Invalid credentials"));
    assert_eq!(headers(&r), vec![h("content-type", "text/plain; charset=utf-8")]);
    let r = api_login_at(&Err(DbError::Other("boom".to_string())), &secret(), 0);
    assert_eq!((r.status, r.body.as_str()), (500, "boom"));
    let r = api_login_at(&Ok(user("a")), &Err("nope".to_string()), 0);
    assert_eq!((r.status, r.body.as_str()), (500, "Missing environment variable: nope"));
}

#[test]
fn me_shows_the_claims() {
    let t = AuthToken { claims: Claims { sub: "z@z".to_string(), exp: 9 } };
    let r = me(&t);
    assert_eq!(r.status, 200);
    assert_eq!(headers(&r), vec![h("content-type", "application/json; charset=utf-8")]);
    assert_eq!(r.body, "{\"sub\":\"z@z\",\"exp\":9}");
}

#[test]
fn guards_without_token() {
    match AdminMiddleware::check(None, &secret()) {
        Gate::Reject(e) => assert_eq!((e.status, e.message), (401, None)),
        _ => panic!("admin should refuse"),
    }
    match ChatMiddleware::check(Some(b"a=1"), &secret()) {
        Gate::Respond(r) => {
            assert_eq!(r.status, 302);
            assert_eq!(headers(&r), vec![h("Location", "/login"), h("Cache-Control", "no-store, no-cache, must-revalidate"), h("Pragma", "no-cache")]);
        },
        _ => panic!("chat should redirect"),
    }
    match AdminMiddleware::check(Some(b"token=abc"), &secret()) {
        Gate::Reject(e) => assert_eq!((e.status, e.message), (401, None)),
        _ => panic!("admin should refuse an unsigned token"),
    }
    match ChatMiddleware::check(Some(b"token=abc"), &secret()) {
        Gate::Respond(r) => {
            assert_eq!(r.status, 302);
            assert_eq!(headers(&r), vec![
                h("Location", "/login?error=session_expired"),
                h("Set-Cookie", "token=; Path=/; Max-Age=0; HttpOnly; SameSite=Lax; Secure"),
                h("Cache-Control", "no-store, no-cache, must-revalidate"),
                h("Pragma", "no-cache"),
            ]);
        },
        _ => panic!("chat should redirect"),
    }
    match ChatMiddleware::check(Some(b"token=bad"), &secret()) {
        Gate::Respond(r) => {
            assert_eq!(headers(&r)[0], h("Location", "/login?error=session_expired"));
            assert_eq!(headers(&r)[1], h("Set-Cookie", "token=; Path=/; Max-Age=0; HttpOnly; SameSite=Lax; Secure"));
        },
        _ => panic!("chat should redirect"),
    }
}

fn payload() -> RegisterPayload {
    RegisterPayload {
        nome: "Ana".to_string(),
        cpf: "111".to_string(),
        telefone: "999".to_string(),
        email: "ana@x".to_string(),
        password: "pw".to_string(),
        categoria: "USER".to_string(),
    }
}

#[test]
fn register_new_user() {
    let p = payload();
    let s = register(&p);
    match &s {
        RegisterStep::CheckExisting { email, cpf } => assert_eq!((email.as_str(), cpf.as_str()), ("ana@x", "111")),
        _ => panic!(),
    }
    let s = register_next(&p, &s, RegisterAnswer::Existing(Ok(false)));
    assert!(matches!(s, RegisterStep::FindEmpresa));
    let s = register_next(&p, &s, RegisterAnswer::Empresa(Ok(Some(42))));
    let u = match &s {
        RegisterStep::Insert(u) => u,
        _ => panic!(),
    };
    assert_eq!(u.empresa_id, 42);
    assert_eq!(u.email, "ana@x");
    assert_eq!(u.password, "pw");
    assert!(u.created_at.same(&u.updated_at));
    let s = register_next(&p, &s, RegisterAnswer::Inserted(Ok(())));
    match s {
        RegisterStep::Done(r) => {
            assert_eq!(r.status, 302);
            assert_eq!(headers(&r), vec![h("Location", "/login"), h("content-type", "text/plain; charset=utf-8")]);
            assert_eq!(r.body, "Usuário cadastrado com sucesso. Redirecionando para o login...");
        },
        _ => panic!(),
    }
}

#[test]
fn register_without_company_gets_a_fresh_one() {
    let p = payload();
    let s = register_next(&p, &RegisterStep::FindEmpresa, RegisterAnswer::Empresa(Ok(None)));
    match s {
        RegisterStep::Insert(u) => {
            assert_eq!(uuid::Uuid::from_u128(u.empresa_id).get_version_num(), 4);
            assert_ne!(u.empresa_id, u.id);
        },
        _ => panic!(),
    }
}

#[test]
fn register_conflict_and_errors() {
    let p = payload();
    let start = register(&p);
    let s = register_next(&p, &start, RegisterAnswer::Existing(Ok(true)));
    assert!(matches!(s, RegisterStep::LoadTemplate));
    match register_next(&p, &s, RegisterAnswer::Template(Some("<form/>".to_string()))) {
        RegisterStep::Done(r) => {
            assert_eq!(r.status, 409);
            assert_eq!(headers(&r), vec![h("content-type", "text/html; charset=utf-8")]);
            assert_eq!(r.body, "\n                <div class='text-red-600 p-4 mb-4 bg-red-50 rounded'>\n                    Email ou CPF já cadastrado. Por favor, tente novamente.\n                </div>\n                <form/>\n            ");
        },
        _ => panic!(),
    }
    match register_next(&p, &RegisterStep::LoadTemplate, RegisterAnswer::Template(None)) {
        RegisterStep::Done(r) => assert!(r.body.contains("</div>\n                \n            ")),
        _ => panic!(),
    }
    match register_next(&p, &start, RegisterAnswer::Existing(Err("e1".to_string()))) {
        RegisterStep::Done(r) => assert_eq!((r.status, r.body.as_str()), (500, "e1")),
        _ => panic!(),
    }
    match register_next(&p, &RegisterStep::FindEmpresa, RegisterAnswer::Empresa(Err("e2".to_string()))) {
        RegisterStep::Done(r) => assert_eq!((r.status, r.body.as_str()), (500, "e2")),
        _ => panic!(),
    }
    let ins = register_next(&p, &RegisterStep::FindEmpresa, RegisterAnswer::Empresa(Ok(Some(1))));
    match register_next(&p, &ins, RegisterAnswer::Inserted(Err("e3".to_string()))) {
        RegisterStep::Done(r) => assert_eq!((r.status, r.body.as_str()), (500, "e3")),
        _ => panic!(),
    }
}

#[test]
fn guards_decide_at_a_given_instant() {
    let t = psocial3::auth::token::generate_token(&Claims { sub: "a@x".to_string(), exp: 1000 }, &secret()).ok().unwrap();
    let cookie = format!("token={}", t);
    assert!(matches!(AdminMiddleware::check_at(Some(cookie.as_bytes()), &secret(), 1100), Gate::Pass));
    assert!(matches!(AdminMiddleware::check_at(Some(cookie.as_bytes()), &secret(), 1121), Gate::Reject(_)));
    assert!(matches!(ChatMiddleware::check_at(Some(cookie.as_bytes()), &secret(), 1120), Gate::Pass));
    match ChatMiddleware::check_at(Some(cookie.as_bytes()), &secret(), 1121) {
        Gate::Respond(r) => assert_eq!(headers(&r)[0], h("Location", "/login?error=session_expired")),
        _ => panic!("chat should redirect an expired session"),
    }
}
