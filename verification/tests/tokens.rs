use base64::Engine;
use psocial3::auth::dto::{AuthToken, Claims};
use psocial3::auth::jwt::{bearer_token, verify_token, verify_token_at, JwtError as BearerError, JwtToken};
use psocial3::auth::token::{check_token_at, claims_from_fields, generate_token, validate_token, validate_token_at, JwtError};
use psocial3::http::HttpError;

fn secret() -> Result<String, String> {
    Ok("test-secret".to_string())
}

fn claims(sub: &str, exp: usize) -> Claims {
    Claims { sub: sub.to_string(), exp }
}

fn in_an_hour() -> usize {
    (chrono::Utc::now().timestamp() + 3600) as usize
}

#[test]
fn issued_token_validates_back_to_its_claims() {
    let c = claims("joao@example.com", in_an_hour());
    let token = generate_token(&c, &secret()).ok().unwrap();
    let back = validate_token(&token, &secret()).ok().unwrap();
    assert_eq!(back.sub, c.sub);
    assert_eq!(back.exp, c.exp);
    let back2 = verify_token(&token, &secret()).ok().unwrap();
    assert_eq!(back2.sub, c.sub);
    assert_eq!(back2.exp, c.exp);
}

#[test]
fn issued_token_with_escapes_validates_back() {
    let c = claims("a\"b\\c\n\u{1}é", in_an_hour());
    let token = generate_token(&c, &secret()).ok().unwrap();
    let back = validate_token(&token, &secret()).ok().unwrap();
    assert_eq!(back.sub, c.sub);
}

#[test]
fn issued_token_payload_is_the_compact_claims_json() {
    let c = claims("x@y.z", 1234567890);
    let token = generate_token(&c, &secret()).ok().unwrap();
    let parts: Vec<&str> = token.split('.').collect();
    assert_eq!(parts.len(), 3);
    let payload = base64::engine::general_purpose::URL_SAFE_NO_PAD.decode(parts[1]).unwrap();
    assert_eq!(String::from_utf8(payload).unwrap(), "{\"sub\":\"x@y.z\",\"exp\":1234567890}");
    let header = base64::engine::general_purpose::URL_SAFE_NO_PAD.decode(parts[0]).unwrap();
    assert_eq!(String::from_utf8(header).unwrap(), "{\"typ\":\"JWT\",\"alg\":\"HS256\"}");
}

#[test]
fn claims_json_escapes_as_serde_json() {
    assert_eq!(claims("a\"b", 5).to_json(), "{\"sub\":\"a\\\"b\",\"exp\":5}");
    assert_eq!(claims("\u{1f}\t", 0).to_json(), "{\"sub\":\"\\u001f\\t\",\"exp\":0}");
    assert_eq!(claims("", usize::MAX).to_json(), format!("{{\"sub\":\"\",\"exp\":{}}}", usize::MAX));
}

#[test]
fn missing_secret_is_missing_env() {
    let lookup: Result<String, String> = Err("environment variable not found".to_string());
    match generate_token(&claims("a", 1), &lookup) {
        Err(JwtError::MissingEnv(m)) => assert_eq!(m, "environment variable not found"),
        _ => panic!("expected MissingEnv"),
    }
    match validate_token("x.y.z", &lookup) {
        Err(e) => assert_eq!(e.to_display(), "Missing environment variable: environment variable not found"),
        Ok(_) => panic!("expected an error"),
    }
    match verify_token("x.y.z", &lookup) {
        Err(BearerError::MissingEnv(_)) => {},
        _ => panic!("expected MissingEnv"),
    }
}

#[test]
fn token_signed_with_another_secret_is_invalid() {
    let token = generate_token(&claims("a", in_an_hour()), &Ok("other".to_string())).ok().unwrap();
    match validate_token(&token, &secret()) {
        Err(JwtError::InvalidToken(m)) => assert_eq!(m, "InvalidSignature"),
        _ => panic!("expected InvalidToken"),
    }
}

#[test]
fn expired_token_is_invalid_beyond_the_leeway() {
    let now = chrono::Utc::now().timestamp() as usize;
    let old = generate_token(&claims("a", now - 1000), &secret()).ok().unwrap();
    match validate_token(&old, &secret()) {
        Err(JwtError::InvalidToken(m)) => assert_eq!(m, "ExpiredSignature"),
        _ => panic!("expected InvalidToken"),
    }
    // Within the two-minute leeway of `validate_token`, but not the
    // one-minute leeway of `verify_token`.
    let recent = generate_token(&claims("a", now - 90), &secret()).ok().unwrap();
    assert!(validate_token(&recent, &secret()).is_ok());
    assert!(verify_token(&recent, &secret()).is_err());
}

#[test]
fn garbage_token_is_invalid() {
    match validate_token("not a token", &secret()) {
        Err(e) => assert!(e.to_display().starts_with("Invalid token: ")),
        Ok(_) => panic!("expected an error"),
    }
}

#[test]
fn claims_read_from_fields() {
    let fields = vec![("exp".to_string(), "7".to_string()), ("sub".to_string(), "\"a\\u0041\"".to_string())];
    let c = claims_from_fields(&fields).ok().unwrap();
    assert_eq!(c.sub, "aA");
    assert_eq!(c.exp, 7);
    let missing = vec![("exp".to_string(), "7".to_string())];
    assert_eq!(claims_from_fields(&missing).err().unwrap(), "missing field `sub`");
    let no_exp = vec![("sub".to_string(), "\"a\"".to_string())];
    assert_eq!(claims_from_fields(&no_exp).err().unwrap(), "missing field `exp`");
    let bad = vec![("exp".to_string(), "-1".to_string()), ("sub".to_string(), "\"a\"".to_string())];
    assert!(claims_from_fields(&bad).is_err());
    let bad_sub = vec![("sub".to_string(), "5".to_string())];
    assert!(claims_from_fields(&bad_sub).err().unwrap().starts_with("invalid type"));
}

#[test]
fn bearer_token_reads_after_prefix() {
    assert_eq!(bearer_token(Some(b"Bearer abc")), Some("abc".to_string()));
    assert_eq!(bearer_token(Some(b"Bearer ")), Some(String::new()));
    assert_eq!(bearer_token(Some(b"bearer abc")), None);
    assert_eq!(bearer_token(Some(b"Bearer")), None);
    assert_eq!(bearer_token(Some(b"Basic abc")), None);
    assert_eq!(bearer_token(Some(&[b'B', 0xff])), None);
    assert_eq!(bearer_token(None), None);
}

fn status_of(e: &HttpError) -> (u16, Option<String>) {
    (e.status, e.message.clone())
}

#[test]
fn jwt_token_from_authorization() {
    let c = claims("me@x", in_an_hour());
    let token = generate_token(&c, &secret()).ok().unwrap();
    let header = format!("Bearer {}", token);
    let t = JwtToken::from_authorization(Some(header.as_bytes()), &secret()).ok().unwrap();
    assert_eq!(t.claims.sub, "me@x");
    let e = JwtToken::from_authorization(None, &secret()).err().unwrap();
    assert_eq!(status_of(&e), (401, None));
    let e = JwtToken::from_authorization(Some(b"Bearer nope"), &secret()).err().unwrap();
    assert_eq!(e.status, 401);
    assert!(e.message.unwrap().starts_with("Invalid token: "));
}

#[test]
fn auth_token_from_cookie() {
    let c = claims("me@x", in_an_hour());
    let token = generate_token(&c, &secret()).ok().unwrap();
    let t = AuthToken::from_cookie(Some(Ok(token)), &secret()).ok().unwrap();
    assert_eq!(t.claims.sub, "me@x");
    let e = AuthToken::from_cookie(None, &secret()).err().unwrap();
    assert_eq!(status_of(&e), (401, None));
    let parse_error = HttpError { status: 400, message: Some("bad cookie".to_string()) };
    let e = AuthToken::from_cookie(Some(Err(parse_error)), &secret()).err().unwrap();
    assert_eq!(status_of(&e), (400, Some("bad cookie".to_string())));
    let e = AuthToken::from_cookie(Some(Ok("x".to_string())), &secret()).err().unwrap();
    assert_eq!(status_of(&e), (401, None));
}

#[test]
fn bearer_error_displays() {
    assert_eq!(BearerError::InvalidToken("m".to_string()).to_display(), "Invalid token: m");
    let e = BearerError::MissingEnv("v".to_string()).into_http_error();
    assert_eq!(status_of(&e), (401, Some("Missing environment variable: v".to_string())));
}

#[test]
fn token_checked_at_a_given_instant() {
    let t = generate_token(&claims("a", 1000), &secret()).ok().unwrap();
    let c = validate_token_at(&t, &secret(), 1120).ok().unwrap();
    assert_eq!((c.sub.as_str(), c.exp), ("a", 1000));
    match validate_token_at(&t, &secret(), 1121) {
        Err(JwtError::InvalidToken(m)) => assert_eq!(m, "ExpiredSignature"),
        _ => panic!("expected the expiry error"),
    }
    assert!(verify_token_at(&t, &secret(), 1060).is_ok());
    match verify_token_at(&t, &secret(), 1061) {
        Err(BearerError::InvalidToken(m)) => assert_eq!(m, "ExpiredSignature"),
        _ => panic!("expected the expiry error"),
    }
    match validate_token_at(&t, &Err("unset".to_string()), 0) {
        Err(JwtError::MissingEnv(m)) => assert_eq!(m, "unset"),
        _ => panic!("expected MissingEnv"),
    }
    assert_eq!(check_token_at(&t, "test-secret", 0, 0).ok().unwrap().sub, "a");
    assert_eq!(check_token_at(&t, "another", 0, 0).err().unwrap(), "InvalidSignature");
    assert_eq!(check_token_at("abc", "test-secret", 0, 0).err().unwrap(), "InvalidToken");
}

#[test]
fn token_without_subject_is_a_json_error() {
    let mut payload = std::collections::BTreeMap::new();
    payload.insert("exp".to_string(), 5u64);
    let key = jsonwebtoken::EncodingKey::from_secret(b"test-secret");
    let t = jsonwebtoken::encode(&jsonwebtoken::Header::default(), &payload, &key).unwrap();
    assert_eq!(check_token_at(&t, "test-secret", 0, 0).err().unwrap(), "JSON error: missing field `sub`");
}
