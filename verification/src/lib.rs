//! A text redaction service core: model-configuration checks, the
//! settings-update protocol, admission of redaction requests and service state updates.

pub mod config;
pub mod model_config;
pub mod redact;
pub mod settings;
pub mod text;
pub mod types;
