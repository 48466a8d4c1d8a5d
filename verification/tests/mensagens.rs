use psocial3::ids::UtcTime;
use psocial3::models::empresas::mock_empresas;
use psocial3::models::mensagens::{mock_mensagens, Mensagem};
use psocial3::models::users::mock_users;
use uuid::Uuid;

fn utc(d: chrono::DateTime<chrono::Utc>) -> UtcTime {
    UtcTime::from_parts(d.timestamp(), d.timestamp_subsec_nanos()).unwrap()
}

#[test]
fn test_create_mensagem() {
    let id = Uuid::new_v4();
    let user_id = Uuid::new_v4();
    let now = chrono::Utc::now();

    let mensagem = Mensagem {
        id: id.as_u128(),
        user_id: user_id.as_u128(),
        texto: "Test message".to_string(),
        recebido: false,
        criado_em: utc(now),
    };

    assert_eq!(mensagem.id, id.as_u128());
    assert_eq!(mensagem.user_id, user_id.as_u128());
    assert_eq!(mensagem.texto, "Test message");
    assert!(!mensagem.recebido);
    assert!(mensagem.criado_em.same(&utc(now)));
}

#[test]
fn test_mock_mensagens() {
    let mensagens = mock_mensagens();

    assert_eq!(mensagens.len(), 2);
    assert!(!mensagens[0].recebido);
    assert!(mensagens[1].recebido);
    assert_eq!(mensagens[0].texto, "Olá, esta é uma mensagem de teste!");
    assert_eq!(mensagens[1].texto, "Outra mensagem aqui.");
}

#[test]
fn mock_mensagens_share_one_instant_and_have_v4_ids() {
    let m = mock_mensagens();
    assert!(m[0].criado_em.same(&m[1].criado_em));
    for x in &m {
        assert_eq!(Uuid::from_u128(x.id).get_version_num(), 4);
        assert_eq!(Uuid::from_u128(x.user_id).get_version_num(), 4);
    }
    assert_ne!(m[0].id, m[1].id);
}

#[test]
fn mock_users_are_joao_and_maria_of_one_company() {
    let u = mock_users();
    assert_eq!(u.len(), 2);
    assert_eq!(u[0].empresa_id, u[1].empresa_id);
    assert_eq!(u[0].nome, "João Silva");
    assert_eq!(u[0].email, "joao@example.com");
    assert_eq!(u[0].password, "senha123");
    assert_eq!(u[0].categoria, "user");
    assert_eq!(u[1].nome, "Maria Oliveira");
    assert_eq!(u[1].cpf, "987.654.321-00");
    assert_eq!(u[1].telefone, "(11) 88888-8888");
    assert_eq!(u[1].categoria, "admin");
    assert_eq!(Uuid::from_u128(u[0].id).get_version_num(), 4);
}

#[test]
fn mock_empresas_are_the_two_demo_companies() {
    let e = mock_empresas();
    assert_eq!(e.len(), 2);
    assert_eq!(e[0].nome, "Demo Empresa 1");
    assert_eq!(e[0].cnpj, "12.345.678/0001-90");
    assert_eq!(e[1].nome, "Demo Empresa 2");
    assert_eq!(e[1].cnpj, "98.765.432/0001-09");
    assert!(e[0].created_at.same(&e[1].updated_at));
    assert!(e[0].created_at.same(&e[0].updated_at));
    assert!(e[1].created_at.same(&e[1].updated_at));
    assert_eq!(e[0].created_at.nanos(), e[1].created_at.nanos());
    assert_ne!(e[0].id, e[1].id);
}

#[test]
fn utc_time_rejects_what_chrono_rejects() {
    assert!(UtcTime::from_parts(0, 0).is_some());
    assert!(UtcTime::from_parts(i64::MAX, 0).is_none());
    assert!(UtcTime::from_parts(0, 2_000_000_000).is_none());
    let t = UtcTime::from_parts(86_400, 5).unwrap();
    assert_eq!(t.secs(), 86_400);
    assert_eq!(t.nanos(), 5);
    assert_eq!(t.to_rfc3339(), "1970-01-02T00:00:00.000000005+00:00");
}
