//! The records kept in the database, with plain identifiers and instants.
pub mod empresas;
pub mod mensagens;
pub mod users;
