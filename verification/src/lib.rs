//! A local compatibility layer between Voxtype's OpenAI-style transcription
//! endpoint and ElevenLabs Scribe: the request handling decisions, the
//! configuration rules and the text clean-up, with their contracts.

pub mod text;
pub mod config;
pub mod state;
pub mod upload;
pub mod transcribe;
pub mod serve;
pub mod keyfile;

pub use config::{credentials_path, env_bool, ConfigError, EnvValue, Environment};
pub use state::{AdapterState, ApiKeyError, HealthResponse};
pub use text::sanitize_error;
