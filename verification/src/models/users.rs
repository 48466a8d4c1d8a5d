//! Registered users.
use vstd::prelude::*;
use vstd::string::*;
use crate::ids::{new_uuid_v4, UtcTime};

verus! {

/// A user of a company. The password is kept as it was registered.
pub struct User {
    pub id: u128,
    pub empresa_id: u128,
    pub nome: String,
    pub cpf: String,
    pub telefone: String,
    pub email: String,
    pub password: String,
    pub categoria: String,
    pub created_at: UtcTime,
    pub updated_at: UtcTime,
}

/// The text fields of a user: name, CPF, phone, e-mail, password, category.
pub open spec fn user_texts(u: User) -> (Seq<char>, Seq<char>, Seq<char>, Seq<char>, Seq<char>, Seq<char>) {
    (u.nome@, u.cpf@, u.telefone@, u.email@, u.password@, u.categoria@)
}

/// Whether `id` is a random (version 4) UUID.
pub open spec fn is_v4(id: u128) -> bool {
    (id >> 76u128) & 0xf == 4 && (id >> 62u128) & 0x3 == 2
}

/// Two sample users of one fresh company, João (a user) and Maria (an
/// admin), with fresh random ids and the current time.
pub fn mock_users() -> (r: Vec<User>)
    ensures
        r.len() == 2,
        r[0].empresa_id == r[1].empresa_id,
        is_v4(r[0].id) && is_v4(r[1].id) && is_v4(r[0].empresa_id),
        user_texts(r[0]) == ("João Silva"@, "123.456.789-00"@, "(11) 99999-9999"@,
            "joao@example.com"@, "senha123"@, "user"@),
        user_texts(r[1]) == ("Maria Oliveira"@, "987.654.321-00"@, "(11) 88888-8888"@,
            "maria@example.com"@, "senha456"@, "admin"@),
{
    let empresa_id = new_uuid_v4();
    let first = User {
        id: new_uuid_v4(),
        empresa_id,
        nome: String::from_str("João Silva"),
        cpf: String::from_str("123.456.789-00"),
        telefone: String::from_str("(11) 99999-9999"),
        email: String::from_str("joao@example.com"),
        password: String::from_str("senha123"),
        categoria: String::from_str("user"),
        created_at: UtcTime::now(),
        updated_at: UtcTime::now(),
    };
    let second = User {
        id: new_uuid_v4(),
        empresa_id,
        nome: String::from_str("Maria Oliveira"),
        cpf: String::from_str("987.654.321-00"),
        telefone: String::from_str("(11) 88888-8888"),
        email: String::from_str("maria@example.com"),
        password: String::from_str("senha456"),
        categoria: String::from_str("admin"),
        created_at: UtcTime::now(),
        updated_at: UtcTime::now(),
    };
    let mut v: Vec<User> = Vec::new();
    v.push(first);
    v.push(second);
    v
}

} // verus!
