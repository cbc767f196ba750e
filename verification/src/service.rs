//! The service: where the backend is, the defaults that the environment
//! gave, and what the service says of itself.

use crate::error::{ErrorKind, Failure, ServiceError};
use crate::text::{trim_end, trim_trailing_slashes};
use crate::views::result_view;
use vstd::prelude::*;

verus! {

/// Name of the environment variable that holds the backend's base address.
pub const API_URL_VAR: &'static str = "PERPLEXICA_API_URL";

/// Name of the environment variable that holds the default provider id.
pub const PROVIDER_ID_VAR: &'static str = "PERPLEXICA_PROVIDER_ID";

/// Name of the environment variable that holds the default chat model key.
pub const CHAT_MODEL_KEY_VAR: &'static str = "PERPLEXICA_CHAT_MODEL_KEY";

/// Name of the environment variable that holds the default embedding model key.
pub const EMBEDDING_MODEL_KEY_VAR: &'static str = "PERPLEXICA_EMBEDDING_MODEL_KEY";

/// Seconds to wait for the backend before a call counts as unreachable.
pub const REQUEST_TIMEOUT_SECS: u64 = 30;

/// Idle connections to keep for each host.
pub const MAX_IDLE_CONNECTIONS_PER_HOST: usize = 10;

/// The identifiers to use where a search names none, as the environment gave them.
#[derive(Clone, Debug, PartialEq, Eq)]
pub struct ProviderDefaults {
    pub provider_id: Option<String>,
    pub chat_model_key: Option<String>,
    pub embedding_model_key: Option<String>,
}

/// Mathematical model of [`ProviderDefaults`].
pub ghost struct DefaultsView {
    pub provider_id: Option<Seq<char>>,
    pub chat_model_key: Option<Seq<char>>,
    pub embedding_model_key: Option<Seq<char>>,
}

impl View for ProviderDefaults {
    type V = DefaultsView;

    open spec fn view(&self) -> DefaultsView {
        DefaultsView {
            provider_id: self.provider_id.deep_view(),
            chat_model_key: self.chat_model_key.deep_view(),
            embedding_model_key: self.embedding_model_key.deep_view(),
        }
    }
}

/// The service: where the backend's two endpoints are, and the defaults.
#[derive(Clone, Debug, PartialEq, Eq)]
pub struct PerplexicaService {
    pub search_url: String,
    pub providers_url: String,
    pub defaults: ProviderDefaults,
}

/// Mathematical model of a [`PerplexicaService`].
pub ghost struct ServiceView {
    pub search_url: Seq<char>,
    pub providers_url: Seq<char>,
    pub defaults: DefaultsView,
}

impl View for PerplexicaService {
    type V = ServiceView;

    open spec fn view(&self) -> ServiceView {
        ServiceView {
            search_url: self.search_url@,
            providers_url: self.providers_url@,
            defaults: self.defaults@,
        }
    }
}

impl DeepView for PerplexicaService {
    type V = ServiceView;

    open spec fn deep_view(&self) -> ServiceView {
        self@
    }
}

/// The service for a base address: its trailing slashes are dropped, and
/// each endpoint's path follows. Without a base address there is no service.
pub open spec fn configured(api_url: Option<Seq<char>>, defaults: DefaultsView) -> Result<
    ServiceView,
    Failure,
> {
    match api_url {
        Some(url) => Ok(
            ServiceView {
                search_url: trim_end(url, '/') + "/api/search"@,
                providers_url: trim_end(url, '/') + "/api/providers"@,
                defaults,
            },
        ),
        None => Err(
            Failure {
                kind: ErrorKind::MissingConfiguration,
                message: "PERPLEXICA_API_URL environment variable must be set"@,
            },
        ),
    }
}

/// What the service says of itself when a client connects.
#[derive(Clone, Debug, PartialEq, Eq)]
pub struct ServerDescription {
    /// The version of the tool protocol that the service speaks.
    pub protocol_version: String,
    /// Whether the service offers tools.
    pub tools: bool,
    /// How to use the service.
    pub instructions: String,
}

/// Mathematical model of a [`ServerDescription`].
pub ghost struct ServerDescriptionView {
    pub protocol_version: Seq<char>,
    pub tools: bool,
    pub instructions: Seq<char>,
}

impl View for ServerDescription {
    type V = ServerDescriptionView;

    open spec fn view(&self) -> ServerDescriptionView {
        ServerDescriptionView {
            protocol_version: self.protocol_version@,
            tools: self.tools,
            instructions: self.instructions@,
        }
    }
}

/// The description of the service: it speaks the protocol of 2024-11-05,
/// offers tools, and tells how its two tools and its configuration work.
pub open spec fn server_description() -> ServerDescriptionView {
    ServerDescriptionView {
        protocol_version: "2024-11-05"@,
        tools: true,
        instructions: "A Perplexica API service that performs intelligent searches. Use perplexica_providers to discover available providers and models, and perplexica_search to query the Perplexica instance. Required environment variables: PERPLEXICA_API_URL. Optional environment variables for defaults: PERPLEXICA_PROVIDER_ID, PERPLEXICA_CHAT_MODEL_KEY, PERPLEXICA_EMBEDDING_MODEL_KEY."@,
    }
}

impl PerplexicaService {
    /// The service for the base address and the defaults that the
    /// environment gave.
    pub fn new(api_url: Option<String>, defaults: ProviderDefaults) -> (r: Result<
        PerplexicaService,
        ServiceError,
    >)
        ensures
            result_view(r) == configured(api_url.deep_view(), defaults@),
    {
        match api_url {
            Some(url) => {
                let base = trim_trailing_slashes(url.as_str());
                let mut search_url = base.clone();
                search_url.append("/api/search");
                let mut providers_url = base;
                providers_url.append("/api/providers");
                Ok(PerplexicaService { search_url, providers_url, defaults })
            },
            None => Err(
                ServiceError::new(
                    ErrorKind::MissingConfiguration,
                    String::from_str("PERPLEXICA_API_URL environment variable must be set"),
                ),
            ),
        }
    }

    /// What the service says of itself when a client connects.
    pub fn get_info(&self) -> (info: ServerDescription)
        ensures
            info@ == server_description(),
    {
        ServerDescription {
            protocol_version: String::from_str("2024-11-05"),
            tools: true,
            instructions: String::from_str(
                "A Perplexica API service that performs intelligent searches. Use perplexica_providers to discover available providers and models, and perplexica_search to query the Perplexica instance. Required environment variables: PERPLEXICA_API_URL. Optional environment variables for defaults: PERPLEXICA_PROVIDER_ID, PERPLEXICA_CHAT_MODEL_KEY, PERPLEXICA_EMBEDDING_MODEL_KEY.",
            ),
        }
    }
}

} // verus!
