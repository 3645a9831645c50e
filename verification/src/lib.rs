//! Core of a private-messaging backend: the credential service, the account
//! lifecycle decisions, and the command protocol of the real-time channel.

pub mod command;
pub mod credentials;
pub mod error;
pub mod http;
pub mod jwt;
pub mod store;
pub mod text;
pub mod user_struct;
pub mod websocket;
