//! An OpenAI-compatible chat-completion gateway: request validation, model
//! resolution, backend adapters and the streaming engine, with the rules of
//! each stated as contracts.

pub mod codec;
pub mod config;
pub mod error;
pub mod handlers;
pub mod http_client;
pub mod json;
pub mod lm_client_studio;
pub mod models;
pub mod number;
pub mod providers;
pub mod streaming;
pub mod text;
pub mod validations;
