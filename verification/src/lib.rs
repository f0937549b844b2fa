//! Verified core of the JustAskRepo backend: session lifetimes, rate-limit
//! budgets, client addressing, configuration rules and the OAuth handshake
//! decisions. The HTTP server, Valkey, Postgres and GitHub calls live in the
//! application crate that drives this library.

pub mod api;
pub mod app_config;
pub mod client_ip;
pub mod clock;
pub mod config;
pub mod encoding;
pub mod error;
pub mod events;
pub mod http;
pub mod login;
pub mod oauth;
pub mod probe;
pub mod rate_limiter;
pub mod session;
pub mod session_store;
pub mod template;
pub mod text;
pub mod token;
pub mod types;
