//! Companies, to which users belong.
use vstd::prelude::*;
use vstd::string::*;
use crate::ids::{new_uuid_v4, UtcTime};
use crate::models::users::is_v4;

verus! {

/// A company with its name and CNPJ.
pub struct Empresa {
    pub id: u128,
    pub nome: String,
    pub cnpj: String,
    pub created_at: UtcTime,
    pub updated_at: UtcTime,
}

/// Two sample companies with fresh random ids, created now.
pub fn mock_empresas() -> (r: Vec<Empresa>)
    ensures
        r.len() == 2,
        is_v4(r[0].id) && is_v4(r[1].id),
        r[0].nome@ == "Demo Empresa 1"@ && r[0].cnpj@ == "12.345.678/0001-90"@,
        r[1].nome@ == "Demo Empresa 2"@ && r[1].cnpj@ == "98.765.432/0001-09"@,
        r[0].created_at.spec_secs() == r[1].created_at.spec_secs(),
        r[0].created_at.spec_nanos() == r[1].created_at.spec_nanos(),
        r[0].created_at.spec_secs() == r[0].updated_at.spec_secs(),
        r[0].created_at.spec_nanos() == r[0].updated_at.spec_nanos(),
        r[1].created_at.spec_secs() == r[1].updated_at.spec_secs(),
        r[1].created_at.spec_nanos() == r[1].updated_at.spec_nanos(),
{
    let now = UtcTime::now();
    let first = Empresa {
        id: new_uuid_v4(),
        nome: String::from_str("Demo Empresa 1"),
        cnpj: String::from_str("12.345.678/0001-90"),
        created_at: now.copy(),
        updated_at: now.copy(),
    };
    let second = Empresa {
        id: new_uuid_v4(),
        nome: String::from_str("Demo Empresa 2"),
        cnpj: String::from_str("98.765.432/0001-09"),
        created_at: now.copy(),
        updated_at: now,
    };
    let mut v: Vec<Empresa> = Vec::new();
    v.push(first);
    v.push(second);
    v
}

} // verus!
