//! Authenticated request pipeline and credential lifecycle of a client for a
//! cloud database-management REST API.
//!
//! The library decides; the program around it performs the HTTP exchanges,
//! prompts and file writes that those decisions ask for.
pub mod error;
pub mod token;
pub mod authorization;
pub mod client;
pub mod credentials;
pub mod version;
pub mod text;
pub mod schemas;
pub mod args;
pub mod net;
pub mod mesdb;
pub mod observer;
pub mod integrations;
pub mod urls;

pub use error::EscError;
pub use token::Token;
pub use authorization::{Authorization, StaticAuthorization, StaticTokenAuthorizer};
pub use client::{Client, static_token_client, CallStage, CallEvent, CallAction};
pub use version::{user_agent, CLIENT_VERSION};
pub use urls::{interpolate_path, urlencode};
