//! Core of the chat backend: the error model shared by every service, the
//! serialisation predicates of the database models, and the decisions of the
//! REST server that fetches users and relays authentication events.
pub mod database;
pub mod errors;
pub mod fetch_user;
pub mod server;
pub mod text;
