//! Chat messages, sent or received over WhatsApp.
use vstd::prelude::*;
use vstd::string::*;
use crate::ids::{new_uuid_v4, UtcTime};
use crate::models::users::{is_v4, mock_users};

verus! {

/// A message of a user: `recebido` tells a received message from a sent one.
pub struct Mensagem {
    pub id: u128,
    pub user_id: u128,
    pub texto: String,
    pub recebido: bool,
    pub criado_em: UtcTime,
}

/// Two sample messages of the two sample users, created now: the first
/// sent, the second received.
pub fn mock_mensagens() -> (r: Vec<Mensagem>)
    ensures
        r.len() == 2,
        is_v4(r[0].id) && is_v4(r[1].id),
        r[0].texto@ == "Olá, esta é uma mensagem de teste!"@,
        r[1].texto@ == "Outra mensagem aqui."@,
        !r[0].recebido && r[1].recebido,
        is_v4(r[0].user_id) && is_v4(r[1].user_id),
        r[0].criado_em.spec_secs() == r[1].criado_em.spec_secs(),
        r[0].criado_em.spec_nanos() == r[1].criado_em.spec_nanos(),
{
    let now = UtcTime::now();
    let users = mock_users();
    let first = Mensagem {
        id: new_uuid_v4(),
        user_id: users[0].id,
        texto: String::from_str("Olá, esta é uma mensagem de teste!"),
        recebido: false,
        criado_em: now.copy(),
    };
    let second = Mensagem {
        id: new_uuid_v4(),
        user_id: users[1].id,
        texto: String::from_str("Outra mensagem aqui."),
        recebido: true,
        criado_em: now,
    };
    let mut v: Vec<Mensagem> = Vec::new();
    v.push(first);
    v.push(second);
    v
}

} // verus!
