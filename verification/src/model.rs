//! The records exchanged with callers and with the backend, and their models.

use vstd::prelude::*;

verus! {

/// A search as a caller asks for it.
#[derive(Clone, Debug, PartialEq, Eq)]
pub struct PerplexicaSearchRequest {
    pub query: String,
    pub focus_mode: String,
    pub stream: bool,
    /// Chat history: `[role, message]` pairs, oldest first.
    pub history: Option<Vec<Vec<String>>>,
    pub system_instructions: Option<String>,
    pub provider_id: Option<String>,
    pub chat_model_key: Option<String>,
    pub embedding_model_key: Option<String>,
}

/// Mathematical model of a [`PerplexicaSearchRequest`].
pub ghost struct SearchRequestView {
    pub query: Seq<char>,
    pub focus_mode: Seq<char>,
    pub stream: bool,
    pub history: Option<Seq<Seq<Seq<char>>>>,
    pub system_instructions: Option<Seq<char>>,
    pub provider_id: Option<Seq<char>>,
    pub chat_model_key: Option<Seq<char>>,
    pub embedding_model_key: Option<Seq<char>>,
}

impl View for PerplexicaSearchRequest {
    type V = SearchRequestView;

    open spec fn view(&self) -> SearchRequestView {
        SearchRequestView {
            query: self.query@,
            focus_mode: self.focus_mode@,
            stream: self.stream,
            history: self.history.deep_view(),
            system_instructions: self.system_instructions.deep_view(),
            provider_id: self.provider_id.deep_view(),
            chat_model_key: self.chat_model_key.deep_view(),
            embedding_model_key: self.embedding_model_key.deep_view(),
        }
    }
}

impl DeepView for PerplexicaSearchRequest {
    type V = SearchRequestView;

    open spec fn deep_view(&self) -> SearchRequestView {
        self@
    }
}

/// The chat model of a backend search: a provider and one of its model keys.
#[derive(Clone, Debug, PartialEq, Eq)]
pub struct ChatModel {
    pub provider_id: String,
    pub key: String,
}

/// The embedding model of a backend search: a provider and one of its model keys.
#[derive(Clone, Debug, PartialEq, Eq)]
pub struct EmbeddingModel {
    pub provider_id: String,
    pub key: String,
}

/// Mathematical model of a [`ChatModel`] or an [`EmbeddingModel`].
pub ghost struct ModelRefView {
    pub provider_id: Seq<char>,
    pub key: Seq<char>,
}

impl View for ChatModel {
    type V = ModelRefView;

    open spec fn view(&self) -> ModelRefView {
        ModelRefView { provider_id: self.provider_id@, key: self.key@ }
    }
}

impl DeepView for ChatModel {
    type V = ModelRefView;

    open spec fn deep_view(&self) -> ModelRefView {
        self@
    }
}

impl View for EmbeddingModel {
    type V = ModelRefView;

    open spec fn view(&self) -> ModelRefView {
        ModelRefView { provider_id: self.provider_id@, key: self.key@ }
    }
}

impl DeepView for EmbeddingModel {
    type V = ModelRefView;

    open spec fn deep_view(&self) -> ModelRefView {
        self@
    }
}

/// The payload of a backend search.
#[derive(Clone, Debug, PartialEq, Eq)]
pub struct PerplexicaApiRequest {
    pub chat_model: ChatModel,
    pub embedding_model: EmbeddingModel,
    pub optimization_mode: String,
    pub focus_mode: String,
    pub query: String,
    pub history: Option<Vec<Vec<String>>>,
    pub system_instructions: Option<String>,
    pub stream: bool,
}

/// Mathematical model of a [`PerplexicaApiRequest`].
pub ghost struct ApiRequestView {
    pub chat_model: ModelRefView,
    pub embedding_model: ModelRefView,
    pub optimization_mode: Seq<char>,
    pub focus_mode: Seq<char>,
    pub query: Seq<char>,
    pub history: Option<Seq<Seq<Seq<char>>>>,
    pub system_instructions: Option<Seq<char>>,
    pub stream: bool,
}

impl View for PerplexicaApiRequest {
    type V = ApiRequestView;

    open spec fn view(&self) -> ApiRequestView {
        ApiRequestView {
            chat_model: self.chat_model@,
            embedding_model: self.embedding_model@,
            optimization_mode: self.optimization_mode@,
            focus_mode: self.focus_mode@,
            query: self.query@,
            history: self.history.deep_view(),
            system_instructions: self.system_instructions.deep_view(),
            stream: self.stream,
        }
    }
}

impl DeepView for PerplexicaApiRequest {
    type V = ApiRequestView;

    open spec fn deep_view(&self) -> ApiRequestView {
        self@
    }
}

/// Title and address of a source.
#[derive(Clone, Debug, PartialEq, Eq)]
pub struct SourceMetadata {
    pub title: String,
    pub url: String,
}

/// Mathematical model of a [`SourceMetadata`].
pub ghost struct SourceMetadataView {
    pub title: Seq<char>,
    pub url: Seq<char>,
}

impl View for SourceMetadata {
    type V = SourceMetadataView;

    open spec fn view(&self) -> SourceMetadataView {
        SourceMetadataView { title: self.title@, url: self.url@ }
    }
}

impl DeepView for SourceMetadata {
    type V = SourceMetadataView;

    open spec fn deep_view(&self) -> SourceMetadataView {
        self@
    }
}

/// A page the answer draws on.
#[derive(Clone, Debug, PartialEq, Eq)]
pub struct Source {
    pub page_content: String,
    pub metadata: SourceMetadata,
}

/// Mathematical model of a [`Source`].
pub ghost struct SourceView {
    pub page_content: Seq<char>,
    pub metadata: SourceMetadataView,
}

impl View for Source {
    type V = SourceView;

    open spec fn view(&self) -> SourceView {
        SourceView { page_content: self.page_content@, metadata: self.metadata@ }
    }
}

impl DeepView for Source {
    type V = SourceView;

    open spec fn deep_view(&self) -> SourceView {
        self@
    }
}

/// The backend's answer to a search.
#[derive(Clone, Debug, PartialEq, Eq)]
pub struct PerplexicaSearchResponse {
    pub message: String,
    pub sources: Vec<Source>,
}

/// Mathematical model of a [`PerplexicaSearchResponse`].
pub ghost struct SearchResponseView {
    pub message: Seq<char>,
    pub sources: Seq<SourceView>,
}

impl View for PerplexicaSearchResponse {
    type V = SearchResponseView;

    open spec fn view(&self) -> SearchResponseView {
        SearchResponseView { message: self.message@, sources: self.sources.deep_view() }
    }
}

impl DeepView for PerplexicaSearchResponse {
    type V = SearchResponseView;

    open spec fn deep_view(&self) -> SearchResponseView {
        self@
    }
}

/// A model that a provider offers.
#[derive(Clone, Debug, PartialEq, Eq)]
pub struct Model {
    pub name: String,
    /// The identifier to use in a search.
    pub key: String,
}

/// Mathematical model of a [`Model`].
pub ghost struct ModelView {
    pub name: Seq<char>,
    pub key: Seq<char>,
}

impl View for Model {
    type V = ModelView;

    open spec fn view(&self) -> ModelView {
        ModelView { name: self.name@, key: self.key@ }
    }
}

impl DeepView for Model {
    type V = ModelView;

    open spec fn deep_view(&self) -> ModelView {
        self@
    }
}

/// A provider and the models it offers.
#[derive(Clone, Debug, PartialEq, Eq)]
pub struct Provider {
    pub id: String,
    pub name: String,
    pub chat_models: Vec<Model>,
    pub embedding_models: Vec<Model>,
}

/// Mathematical model of a [`Provider`].
pub ghost struct ProviderView {
    pub id: Seq<char>,
    pub name: Seq<char>,
    pub chat_models: Seq<ModelView>,
    pub embedding_models: Seq<ModelView>,
}

impl View for Provider {
    type V = ProviderView;

    open spec fn view(&self) -> ProviderView {
        ProviderView {
            id: self.id@,
            name: self.name@,
            chat_models: self.chat_models.deep_view(),
            embedding_models: self.embedding_models.deep_view(),
        }
    }
}

impl DeepView for Provider {
    type V = ProviderView;

    open spec fn deep_view(&self) -> ProviderView {
        self@
    }
}

/// The backend's list of providers.
#[derive(Clone, Debug, PartialEq, Eq)]
pub struct ProvidersResponse {
    pub providers: Vec<Provider>,
}

/// Mathematical model of a [`ProvidersResponse`].
pub ghost struct ProvidersView {
    pub providers: Seq<ProviderView>,
}

impl View for ProvidersResponse {
    type V = ProvidersView;

    open spec fn view(&self) -> ProvidersView {
        ProvidersView { providers: self.providers.deep_view() }
    }
}

impl DeepView for ProvidersResponse {
    type V = ProvidersView;

    open spec fn deep_view(&self) -> ProvidersView {
        self@
    }
}

} // verus!
