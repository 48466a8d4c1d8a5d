use psocial3::admin::{
    check_admin_token, create_empresa_next, create_empresa, delete_empresa_next, delete_empresa,
    delete_usuario_next, delete_usuario, list_empresas, list_usuarios, validate_admin_token,
    CreateEmpresaAnswer, CreateEmpresaPayload, CreateEmpresaStep, DeleteEmpresaAnswer, DeleteEmpresaStep,
    DeleteUsuarioAnswer, DeleteUsuarioStep, EmpresaResponse, UsuarioRow,
};
use psocial3::api::{
    list_messages_at, send_message_at, send_whatsapp_at,
    auth_response, list_messages_done, list_messages, me as api_me, message_response, send_message_done, send_message_for,
    send_message, send_whatsapp, AuthResponse, ListMessagesStep, MessageCreatedResponse, MessagesResponse,
    SendMessageRequest, SendMessageStep,
};
use psocial3::auth::dto::Claims;
use psocial3::auth::jwt::JwtError;
use psocial3::auth::token::generate_token;
use psocial3::http::{HttpError, Reply};
use psocial3::ids::UtcTime;
use psocial3::models::mensagens::Mensagem;

fn secret() -> Result<String, String> {
    Ok("admin-secret".to_string())
}

fn token_for(sub: &str) -> String {
    let exp = (chrono::Utc::now().timestamp() + 3600) as usize;
    generate_token(&Claims { sub: sub.to_string(), exp }, &secret()).ok().unwrap()
}

fn err_of(r: Result<Reply, HttpError>) -> (u16, Option<String>) {
    let e = r.err().unwrap();
    (e.status, e.message)
}

const ID: u128 = 0x550e8400_e29b_41d4_a716_446655440000;

#[test]
fn admin_token_checks() {
    assert!(validate_admin_token(&token_for("a"), &secret()).is_ok());
    let e = validate_admin_token("junk", &secret()).err().unwrap();
    assert_eq!((e.status, e.message), (401, None));
    let e = check_admin_token(None, &secret()).err().unwrap();
    assert_eq!((e.status, e.message), (401, None));
    let parse = HttpError { status: 400, message: Some("p".to_string()) };
    let e = check_admin_token(Some(Err(parse)), &secret()).err().unwrap();
    assert_eq!((e.status, e.message), (400, Some("p".to_string())));
    assert!(check_admin_token(Some(Ok(token_for("a"))), &secret()).is_ok());
    assert!(check_admin_token(Some(Ok(token_for("a"))), &Err("no".to_string())).is_err());
}

#[test]
fn uuid_text_is_hyphenated_lowercase() {
    let mut m = mensagem("x");
    m.user_id = 0;
    let r = message_response(m);
    assert_eq!(r.id, "550e8400-e29b-41d4-a716-446655440000");
    assert_eq!(r.user_id, "00000000-0000-0000-0000-000000000000");
    let req = SendMessageRequest { texto: "t".to_string() };
    for text in ["550e8400-e29b-41d4-a716-446655440000", "550E8400E29B41D4A716446655440000"] {
        match send_message_for(text, &req) {
            SendMessageStep::Insert { user_id, .. } => assert_eq!(user_id, ID),
            _ => panic!("{} should parse", text),
        }
    }
    assert!(matches!(send_message_for("joao@example.com", &req), SendMessageStep::Done(MessageCreatedResponse::InternalError)));
}

#[test]
fn list_empresas_as_json() {
    let rows = vec![
        EmpresaResponse { id: ID, nome: "A\"co".to_string(), cnpj: "1".to_string() },
        EmpresaResponse { id: 1, nome: "B".to_string(), cnpj: "2".to_string() },
    ];
    let r = list_empresas(&Ok(rows)).ok().unwrap();
    assert_eq!(r.status, 200);
    assert_eq!(r.headers[0].name, "content-type");
    assert_eq!(r.headers[0].value, "application/json");
    assert_eq!(
        r.body,
        "[{\"id\":\"550e8400-e29b-41d4-a716-446655440000\",\"nome\":\"A\\\"co\",\"cnpj\":\"1\"},{\"id\":\"00000000-0000-0000-0000-000000000001\",\"nome\":\"B\",\"cnpj\":\"2\"}]"
    );
    assert_eq!(list_empresas(&Ok(vec![])).ok().unwrap().body, "[]");
    assert_eq!(err_of(list_empresas(&Err("db".to_string()))), (500, Some("db".to_string())));
}

#[test]
fn list_usuarios_as_json_with_sorted_keys() {
    let rows = vec![
        UsuarioRow { id: 2, nome: "N".to_string(), email: "e".to_string(), categoria: "c".to_string(), empresa_nome: None },
        UsuarioRow { id: 3, nome: "M".to_string(), email: "f".to_string(), categoria: "d".to_string(), empresa_nome: Some("X".to_string()) },
    ];
    let r = list_usuarios(&Ok(rows)).ok().unwrap();
    assert_eq!(
        r.body,
        "[{\"categoria\":\"c\",\"email\":\"e\",\"empresa\":null,\"id\":\"00000000-0000-0000-0000-000000000002\",\"nome\":\"N\"},{\"categoria\":\"d\",\"email\":\"f\",\"empresa\":\"X\",\"id\":\"00000000-0000-0000-0000-000000000003\",\"nome\":\"M\"}]"
    );
    assert_eq!(err_of(list_usuarios(&Err("x".to_string()))), (500, Some("x".to_string())));
}

fn empresa_payload() -> CreateEmpresaPayload {
    CreateEmpresaPayload { nome: "Nova".to_string(), cnpj: "123".to_string() }
}

#[test]
fn create_empresa_flow() {
    let p = empresa_payload();
    match create_empresa(&p, Some(Ok(token_for("adm"))), &secret()) {
        CreateEmpresaStep::FindCnpj(c) => assert_eq!(c, "123"),
        _ => panic!(),
    }
    match create_empresa(&p, None, &secret()) {
        CreateEmpresaStep::Done(d) => assert_eq!(err_of(d), (401, None)),
        _ => panic!(),
    }
    match create_empresa_next(&p, CreateEmpresaAnswer::Found(Ok(true))) {
        CreateEmpresaStep::Done(d) => {
            let r = d.ok().unwrap();
            assert_eq!((r.status, r.body.as_str()), (409, "CNPJ já cadastrado."));
            assert_eq!(r.headers[0].value, "text/html");
        },
        _ => panic!(),
    }
    match create_empresa_next(&p, CreateEmpresaAnswer::Found(Ok(false))) {
        CreateEmpresaStep::Insert(e) => {
            assert_eq!((e.nome.as_str(), e.cnpj.as_str()), ("Nova", "123"));
            assert!(e.created_at.same(&e.updated_at));
        },
        _ => panic!(),
    }
    match create_empresa_next(&p, CreateEmpresaAnswer::Inserted(Ok(()))) {
        CreateEmpresaStep::Done(d) => {
            let r = d.ok().unwrap();
            assert_eq!((r.status, r.body.as_str()), (302, "Empresa cadastrada com sucesso."));
            assert_eq!((r.headers[0].name.as_str(), r.headers[0].value.as_str()), ("Location", "/admin"));
        },
        _ => panic!(),
    }
    match create_empresa_next(&p, CreateEmpresaAnswer::Found(Err("q".to_string()))) {
        CreateEmpresaStep::Done(d) => assert_eq!(err_of(d), (500, Some("q".to_string()))),
        _ => panic!(),
    }
}

#[test]
fn delete_empresa_flow() {
    assert!(matches!(delete_empresa(7), DeleteEmpresaStep::CountUsers(7)));
    match delete_empresa_next(7, DeleteEmpresaAnswer::Counted(Ok(Some(2)))) {
        DeleteEmpresaStep::Done(d) => {
            let r = d.ok().unwrap();
            assert_eq!((r.status, r.body.as_str()), (400, "Não é possível excluir uma empresa que possui usuários"));
        },
        _ => panic!(),
    }
    assert!(matches!(delete_empresa_next(7, DeleteEmpresaAnswer::Counted(Ok(Some(0)))), DeleteEmpresaStep::Delete(7)));
    assert!(matches!(delete_empresa_next(7, DeleteEmpresaAnswer::Counted(Ok(None))), DeleteEmpresaStep::Delete(7)));
    match delete_empresa_next(7, DeleteEmpresaAnswer::Deleted(Ok(()))) {
        DeleteEmpresaStep::Done(d) => {
            let r = d.ok().unwrap();
            assert_eq!((r.status, r.body.as_str(), r.headers.len()), (204, "", 0));
        },
        _ => panic!(),
    }
}

#[test]
fn delete_usuario_flow() {
    match delete_usuario(Some(Ok(token_for("me@x"))), &secret()) {
        DeleteUsuarioStep::FindCurrentUser(e) => assert_eq!(e, "me@x"),
        _ => panic!(),
    }
    match delete_usuario(Some(Err(())), &secret()) {
        DeleteUsuarioStep::Done(d) => assert_eq!(err_of(d), (401, None)),
        _ => panic!(),
    }
    match delete_usuario_next(5, DeleteUsuarioAnswer::Found(Ok(5))) {
        DeleteUsuarioStep::Done(d) => assert_eq!(d.ok().unwrap().body, "Não é possível excluir o próprio usuário"),
        _ => panic!(),
    }
    assert!(matches!(delete_usuario_next(5, DeleteUsuarioAnswer::Found(Ok(6))), DeleteUsuarioStep::Delete(5)));
    match delete_usuario_next(5, DeleteUsuarioAnswer::Deleted(Err("d".to_string()))) {
        DeleteUsuarioStep::Done(d) => assert_eq!(err_of(d), (500, Some("d".to_string()))),
        _ => panic!(),
    }
}

#[test]
fn api_bearer_endpoints() {
    assert!(matches!(send_whatsapp(&token_for("a"), &secret()), AuthResponse::Success));
    assert!(matches!(api_me("junk", &secret()), AuthResponse::Unauthorized));
    assert!(matches!(api_me(&token_for("a"), &secret()), AuthResponse::Success));
    assert!(matches!(send_whatsapp(&token_for("a"), &Err("unset".to_string())), AuthResponse::Unauthorized));
}

#[test]
fn auth_response_follows_the_check() {
    let ok: Result<Claims, JwtError> = Ok(Claims { sub: "a".to_string(), exp: 1 });
    assert!(matches!(auth_response(&ok), AuthResponse::Success));
    let err: Result<Claims, JwtError> = Err(JwtError::InvalidToken("x".to_string()));
    assert!(matches!(auth_response(&err), AuthResponse::Unauthorized));
}

fn mensagem(texto: &str) -> Mensagem {
    Mensagem { id: ID, user_id: 1, texto: texto.to_string(), recebido: true, criado_em: UtcTime::from_parts(0, 0).unwrap() }
}

#[test]
fn messages_are_shown_with_text_ids_and_rfc3339() {
    let r = message_response(mensagem("oi"));
    assert_eq!(r.id, "550e8400-e29b-41d4-a716-446655440000");
    assert_eq!(r.user_id, "00000000-0000-0000-0000-000000000001");
    assert_eq!(r.texto, "oi");
    assert!(r.recebido);
    assert_eq!(r.criado_em, "1970-01-01T00:00:00+00:00");
}

#[test]
fn list_messages_flow() {
    let cookie = format!("token={}", token_for("me@x"));
    assert!(matches!(list_messages(Some(cookie.as_bytes()), &secret()), ListMessagesStep::Query));
    assert!(matches!(list_messages(None, &secret()), ListMessagesStep::Done(MessagesResponse::Unauthorized)));
    assert!(matches!(list_messages(Some(b"token=x"), &secret()), ListMessagesStep::Done(MessagesResponse::Unauthorized)));
    match list_messages_done(Ok(vec![mensagem("a"), mensagem("b")])) {
        MessagesResponse::Listed(v) => {
            assert_eq!(v.len(), 2);
            assert_eq!(v[0].texto, "a");
            assert_eq!(v[1].texto, "b");
        },
        _ => panic!(),
    }
    assert!(matches!(list_messages_done(Err("x".to_string())), MessagesResponse::InternalError));
}

#[test]
fn send_message_flow() {
    let req = SendMessageRequest { texto: "olá".to_string() };
    // The session's subject is an e-mail, which is not a UUID.
    let cookie = format!("token={}", token_for("me@x"));
    assert!(matches!(send_message(Some(cookie.as_bytes()), &req, &secret()), SendMessageStep::Done(MessageCreatedResponse::InternalError)));
    let cookie = format!("token={}", token_for("550e8400-e29b-41d4-a716-446655440000"));
    match send_message(Some(cookie.as_bytes()), &req, &secret()) {
        SendMessageStep::Insert { user_id, texto, recebido } => {
            assert!(!recebido);
            assert_eq!(user_id, ID);
            assert_eq!(texto, "olá");
        },
        _ => panic!(),
    }
    assert!(matches!(send_message(None, &req, &secret()), SendMessageStep::Done(MessageCreatedResponse::Unauthorized)));
    assert!(matches!(send_message_for("x", &req), SendMessageStep::Done(MessageCreatedResponse::InternalError)));
    match send_message_done(Ok(mensagem("c"))) {
        MessageCreatedResponse::Created(m) => assert_eq!(m.texto, "c"),
        _ => panic!(),
    }
    assert!(matches!(send_message_done(Err("e".to_string())), MessageCreatedResponse::InternalError));
}

#[test]
fn api_flows_at_a_given_instant() {
    let t = generate_token(&Claims { sub: "550e8400-e29b-41d4-a716-446655440000".to_string(), exp: 1000 }, &secret()).ok().unwrap();
    let cookie = format!("token={}", t);
    assert!(matches!(list_messages_at(Some(cookie.as_bytes()), &secret(), 1120), ListMessagesStep::Query));
    assert!(matches!(list_messages_at(Some(cookie.as_bytes()), &secret(), 1121), ListMessagesStep::Done(MessagesResponse::Unauthorized)));
    let req = SendMessageRequest { texto: "x".to_string() };
    assert!(matches!(send_message_at(Some(cookie.as_bytes()), &req, &secret(), 1000), SendMessageStep::Insert { user_id: ID, .. }));
    assert!(matches!(send_message_at(Some(cookie.as_bytes()), &req, &secret(), 5000), SendMessageStep::Done(MessageCreatedResponse::Unauthorized)));
    assert!(matches!(send_whatsapp_at(&t, &secret(), 1060), AuthResponse::Success));
    assert!(matches!(send_whatsapp_at(&t, &secret(), 1061), AuthResponse::Unauthorized));
    assert!(psocial3::admin::validate_admin_token_at(&t, &secret(), 1120).is_ok());
    assert!(psocial3::admin::validate_admin_token_at(&t, &secret(), 1121).is_err());
    let p = CreateEmpresaPayload { nome: "N".to_string(), cnpj: "1".to_string() };
    assert!(matches!(psocial3::admin::create_empresa_at(&p, Some(Ok(t.clone())), &secret(), 1000), CreateEmpresaStep::FindCnpj(_)));
    assert!(matches!(psocial3::admin::delete_usuario_at(Some(Ok(t.clone())), &secret(), 1000), DeleteUsuarioStep::FindCurrentUser(_)));
    assert!(matches!(psocial3::admin::delete_usuario_at(Some(Ok(t)), &secret(), 2000), DeleteUsuarioStep::Done(_)));
}
