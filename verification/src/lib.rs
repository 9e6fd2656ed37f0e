//! Verified core of a MAX messenger bot SDK: request validation, retry and
//! rate-limit policy, redaction, path composition and update mapping.

pub mod duration;
pub mod retry_policy;
pub mod rate_limit_policy;
pub mod text;
pub mod api_error;
pub mod request_context;
pub mod retry_executor;
pub mod credentials;
pub mod api_paths;
pub mod json;
pub mod redaction;
pub mod inline_keyboard;
pub mod attachment;
pub mod new_message_body;
pub mod update_envelope;
pub mod adapter;
pub mod inbound;
pub mod requests;
pub mod authorization;
pub mod endpoint;
pub mod client_config;
pub mod request_builder;
pub mod operations;
pub mod models;
pub mod message;
pub mod message_builder;
pub mod update_telemetry;
pub mod responses;
pub mod laws;
