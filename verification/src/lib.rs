//! Verified core of the PSO3 WhatsApp-integration web service: cookie and
//! header parsing, JWT issuing and checking, the decisions that the HTTP
//! handlers and middlewares take, and the data models.
#![allow(unused_imports)]

pub mod text;
pub mod cookie;
pub mod json;
pub mod http;
pub mod ids;
pub mod auth;
pub mod models;
pub mod db;
pub mod admin;
pub mod api;
pub mod twilio;
pub mod templates;
