//! Transport and session-routing core of a multiplayer game server.
pub mod codec;
pub mod text;
pub mod auth;
pub mod session;
pub mod room;
pub mod server;
pub mod config;
pub mod role;
