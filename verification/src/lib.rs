//! Verified core of a Perplexica tool server: parameter resolution, request
//! construction, response validation and text rendering.
//!
//! The crate sends nothing itself. [`PerplexicaService`] says which call to
//! make for an operation, and turns the outcome of that call into the text
//! to show or into one [`ServiceError`].

pub mod backend;
pub mod codec;
pub mod error;
pub mod json;
pub mod model;
pub mod providers;
pub mod render;
pub mod search;
pub mod service;
pub mod text;
pub mod views;

pub use backend::{BackendCall, HttpMethod, HttpOutcome, Operation};
pub use codec::search::{default_focus_mode, default_stream};
pub use error::{ErrorKind, ServiceError};
pub use json::JsonValue;
pub use model::{
    ChatModel, EmbeddingModel, Model, PerplexicaApiRequest, PerplexicaSearchRequest,
    PerplexicaSearchResponse, Provider, ProvidersResponse, Source, SourceMetadata,
};
pub use service::{PerplexicaService, ProviderDefaults, ServerDescription};
