//! The search operation: which identifiers it uses, the call it makes, and
//! what it returns for the outcome of that call.

use crate::backend::{
    failure_of, malformed, malformed_error, no_response, no_response_error, outcome_status,
    response_body, shows_upstream_error, status_text, successful_body, BackendCall,
    BackendCallView, HttpMethod, HttpOutcome, HttpOutcomeView, Operation,
};
use crate::codec::search::{api_request_json, json_search_response};
use crate::error::{ErrorKind, Failure, ServiceError};
use crate::json::{compact_text, parsed_document, Json, JsonValue};
use crate::model::{
    ApiRequestView, ChatModel, EmbeddingModel, ModelRefView, PerplexicaApiRequest,
    PerplexicaSearchRequest, PerplexicaSearchResponse, SearchRequestView,
};
use crate::render::{render_search_markdown, search_markdown};
use crate::service::{
    DefaultsView, PerplexicaService, ServiceView, CHAT_MODEL_KEY_VAR, EMBEDDING_MODEL_KEY_VAR,
    PROVIDER_ID_VAR,
};
use crate::text::{contains, lemma_contains_middle};
use crate::views::result_view;
use vstd::prelude::*;

verus! {

/// The failure of an identifier that was neither supplied nor configured: its
/// description names the field and the environment variable.
pub open spec fn missing_configuration(field_name: Seq<char>, env_var: Seq<char>) -> Failure {
    Failure {
        kind: ErrorKind::MissingConfiguration,
        message: "Missing "@ + field_name + ". Set either the "@ + field_name
            + " parameter or "@ + env_var + " environment variable"@,
    }
}

/// The identifier to use: the supplied one if there is one, else the
/// configured one, else a failure.
pub open spec fn resolved_value(
    param_value: Option<Seq<char>>,
    env_value: Option<Seq<char>>,
    env_var: Seq<char>,
    field_name: Seq<char>,
) -> Result<Seq<char>, Failure> {
    match param_value {
        Some(value) => Ok(value),
        None => match env_value {
            Some(value) => Ok(value),
            None => Err(missing_configuration(field_name, env_var)),
        },
    }
}

/// The payload of a search: the provider id is resolved first, then the chat
/// model key, then the embedding model key, and the first that cannot be
/// resolved fails the search. The one provider id goes with both models.
pub open spec fn api_request(request: SearchRequestView, defaults: DefaultsView) -> Result<
    ApiRequestView,
    Failure,
> {
    match resolved_value(
        request.provider_id,
        defaults.provider_id,
        PROVIDER_ID_VAR@,
        "provider_id"@,
    ) {
        Err(failure) => Err(failure),
        Ok(provider_id) => match resolved_value(
            request.chat_model_key,
            defaults.chat_model_key,
            CHAT_MODEL_KEY_VAR@,
            "chat_model_key"@,
        ) {
            Err(failure) => Err(failure),
            Ok(chat_model_key) => match resolved_value(
                request.embedding_model_key,
                defaults.embedding_model_key,
                EMBEDDING_MODEL_KEY_VAR@,
                "embedding_model_key"@,
            ) {
                Err(failure) => Err(failure),
                Ok(embedding_model_key) => Ok(
                    ApiRequestView {
                        chat_model: ModelRefView { provider_id, key: chat_model_key },
                        embedding_model: ModelRefView { provider_id, key: embedding_model_key },
                        optimization_mode: "speed"@,
                        focus_mode: request.focus_mode,
                        query: request.query,
                        history: request.history,
                        system_instructions: request.system_instructions,
                        stream: request.stream,
                    },
                ),
            },
        },
    }
}

/// The call that carries a search, where its payload could be written as
/// text; a payload that could not be written fails as a call that got no
/// response.
pub open spec fn spec_search_call(service: ServiceView, written: Result<Seq<char>, Seq<char>>) -> Result<
    BackendCallView,
    Failure,
> {
    match written {
        Ok(text) => Ok(
            BackendCallView { method: HttpMethod::Post, url: service.search_url, body: Some(text) },
        ),
        Err(description) => Err(no_response(Operation::Search, description)),
    }
}

/// The call to make for a search: its payload, written on one line, goes to
/// the search endpoint.
pub open spec fn spec_search_request(service: ServiceView, request: SearchRequestView) -> Result<
    BackendCallView,
    Failure,
> {
    match api_request(request, service.defaults) {
        Err(failure) => Err(failure),
        Ok(payload) => spec_search_call(service, compact_text(api_request_json(payload))),
    }
}

/// The report of a search whose response body was read as `parsed`.
pub open spec fn spec_search_report(parsed: Result<Json, Seq<char>>) -> Result<Seq<char>, Failure> {
    match parsed {
        Err(description) => Err(malformed(Operation::Search, description)),
        Ok(document) => match json_search_response(document) {
            Err(description) => Err(malformed(Operation::Search, description)),
            Ok(response) => Ok(search_markdown(response)),
        },
    }
}

/// What a search returns for an outcome of its call.
pub open spec fn spec_search_result(outcome: HttpOutcomeView) -> Result<Seq<char>, Failure> {
    match response_body(Operation::Search, outcome, status_text(outcome_status(outcome))) {
        Err(failure) => Err(failure),
        Ok(text) => spec_search_report(parsed_document(text)),
    }
}

/// A supplied identifier is the one used, whatever the environment holds.
pub proof fn lemma_supplied_value_wins(
    value: Seq<char>,
    env_value: Option<Seq<char>>,
    env_var: Seq<char>,
    field_name: Seq<char>,
)
    ensures
        resolved_value(Some(value), env_value, env_var, field_name) == Ok::<Seq<char>, Failure>(
            value,
        ),
{
}

/// An identifier that is neither supplied nor configured fails as missing
/// configuration, and the description names both the field and the
/// environment variable.
pub proof fn lemma_missing_value_names_field_and_variable(
    env_var: Seq<char>,
    field_name: Seq<char>,
)
    ensures
        resolved_value(None, None, env_var, field_name) == Err::<Seq<char>, Failure>(
            missing_configuration(field_name, env_var),
        ),
        missing_configuration(field_name, env_var).kind == ErrorKind::MissingConfiguration,
        contains(missing_configuration(field_name, env_var).message, field_name),
        contains(missing_configuration(field_name, env_var).message, env_var),
{
    let message = missing_configuration(field_name, env_var).message;
    lemma_contains_middle(
        "Missing "@,
        field_name,
        ". Set either the "@ + field_name + " parameter or "@ + env_var
            + " environment variable"@,
    );
    assert(message =~= "Missing "@ + field_name + (". Set either the "@ + field_name
        + " parameter or "@ + env_var + " environment variable"@));
    lemma_contains_middle(
        "Missing "@ + field_name + ". Set either the "@ + field_name + " parameter or "@,
        env_var,
        " environment variable"@,
    );
}

/// Every payload has one provider for both of its models, and asks for speed.
pub proof fn lemma_payload_has_one_provider(request: SearchRequestView, defaults: DefaultsView)
    ensures
        api_request(request, defaults) matches Ok(payload) ==> {
            &&& payload.chat_model.provider_id == payload.embedding_model.provider_id
            &&& payload.optimization_mode == "speed"@
        },
{
}

/// Identifiers are resolved in a fixed order. Where the provider id is
/// supplied and the chat model key is neither supplied nor configured, the
/// search fails for the chat model key, whatever holds of the embedding
/// model key.
pub proof fn lemma_chat_model_key_is_missed_first(
    request: SearchRequestView,
    defaults: DefaultsView,
)
    requires
        request.provider_id is Some,
        request.chat_model_key is None,
        defaults.chat_model_key is None,
    ensures
        api_request(request, defaults) == Err::<ApiRequestView, Failure>(
            missing_configuration("chat_model_key"@, CHAT_MODEL_KEY_VAR@),
        ),
{
}

impl PerplexicaService {
    /// The identifier to use for one field of a search. `env_value` is what
    /// the environment variable `env_var` holds, if it is set.
    pub fn resolve_provider_value(
        param_value: Option<String>,
        env_value: &Option<String>,
        env_var: &str,
        field_name: &str,
    ) -> (r: Result<String, ServiceError>)
        ensures
            result_view(r) == resolved_value(
                param_value.deep_view(),
                env_value.deep_view(),
                env_var@,
                field_name@,
            ),
    {
        match param_value {
            Some(value) => Ok(value),
            None => match env_value {
                Some(value) => Ok(value.clone()),
                None => {
                    let mut message = String::from_str("Missing ");
                    message.append(field_name);
                    message.append(". Set either the ");
                    message.append(field_name);
                    message.append(" parameter or ");
                    message.append(env_var);
                    message.append(" environment variable");
                    Err(ServiceError::new(ErrorKind::MissingConfiguration, message))
                },
            },
        }
    }

    /// The payload of a search.
    pub fn build_api_request(&self, request: PerplexicaSearchRequest) -> (r: Result<
        PerplexicaApiRequest,
        ServiceError,
    >)
        ensures
            result_view(r) == api_request(request@, self@.defaults),
    {
        let provider_id = Self::resolve_provider_value(
            request.provider_id,
            &self.defaults.provider_id,
            PROVIDER_ID_VAR,
            "provider_id",
        )?;
        let chat_model_key = Self::resolve_provider_value(
            request.chat_model_key,
            &self.defaults.chat_model_key,
            CHAT_MODEL_KEY_VAR,
            "chat_model_key",
        )?;
        let embedding_model_key = Self::resolve_provider_value(
            request.embedding_model_key,
            &self.defaults.embedding_model_key,
            EMBEDDING_MODEL_KEY_VAR,
            "embedding_model_key",
        )?;
        Ok(
            PerplexicaApiRequest {
                chat_model: ChatModel { provider_id: provider_id.clone(), key: chat_model_key },
                embedding_model: EmbeddingModel { provider_id, key: embedding_model_key },
                optimization_mode: String::from_str("speed"),
                focus_mode: request.focus_mode,
                query: request.query,
                history: request.history,
                system_instructions: request.system_instructions,
                stream: request.stream,
            },
        )
    }

    /// The call that carries a search. `written` is the payload as JSON
    /// text, or why it could not be written.
    pub fn search_call(&self, written: Result<String, String>) -> (r: Result<
        BackendCall,
        ServiceError,
    >)
        ensures
            result_view(r) == spec_search_call(self@, result_view(written)),
    {
        match written {
            Ok(text) => Ok(
                BackendCall {
                    method: HttpMethod::Post,
                    url: self.search_url.clone(),
                    body: Some(text),
                },
            ),
            Err(description) => Err(no_response_error(Operation::Search, description.as_str())),
        }
    }

    /// The call to make for a search, or the failure of an identifier that
    /// cannot be resolved.
    pub fn search_request(&self, request: PerplexicaSearchRequest) -> (r: Result<
        BackendCall,
        ServiceError,
    >)
        ensures
            result_view(r) == spec_search_request(self@, request@),
    {
        let payload = self.build_api_request(request)?;
        self.search_call(payload.to_json().to_text())
    }

    /// The report of a search. `parsed` is the response body read as JSON,
    /// or why it could not be read.
    pub fn search_report(parsed: Result<JsonValue, String>) -> (r: Result<String, ServiceError>)
        ensures
            result_view(r) == spec_search_report(result_view(parsed)),
    {
        match parsed {
            Err(description) => Err(malformed_error(Operation::Search, description.as_str())),
            Ok(document) => match PerplexicaSearchResponse::from_json(&document) {
                Err(description) => Err(malformed_error(Operation::Search, description.as_str())),
                Ok(response) => Ok(render_search_markdown(&response)),
            },
        }
    }

    /// What a search returns for the outcome of its call: the report, or the
    /// one failure that the outcome amounts to.
    pub fn search_result(&self, outcome: HttpOutcome) -> (r: Result<String, ServiceError>)
        ensures
            result_view(r) == spec_search_result(outcome@),
            shows_upstream_error(outcome@, failure_of(result_view(r))),
    {
        let text = successful_body(Operation::Search, outcome)?;
        Self::search_report(JsonValue::parse(text.as_str()))
    }
}

} // verus!
