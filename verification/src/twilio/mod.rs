//! Sending and receiving WhatsApp messages through Twilio.
pub mod client;
pub mod dto;
pub mod handler;
