//! Verified core of a terminal client for cyberspace.online: text utilities,
//! the data model, session handling, request construction, the application
//! state, the event-driven control flow of the client, and what each screen
//! shows and where.
pub mod text;
pub mod models;
pub mod session;
pub mod api;
pub mod input;
pub mod app;
pub mod flow;
pub mod keys;
pub mod view;
pub mod layout;
pub mod laws;
