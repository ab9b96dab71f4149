//! Real-time session layer of a chat server: the registry of live
//! connections, the handshake that admits a connection, the routing of
//! outbound events, and the handlers that turn one client's action into the
//! notifications its peers observe. Beside it: the decisions behind the
//! HTTP endpoints (authentication, login, registration, listings) and the
//! reading of a page for a link preview.

pub mod auth;
pub mod config;
pub mod models;
pub mod registry;
pub mod router;
pub mod clock;
pub mod connection;
pub mod handlers;
pub mod presence;
pub mod rest;
pub mod link_preview;
