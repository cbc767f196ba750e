//! The providers operation: the call it makes, and what it returns for the
//! outcome of that call.

use crate::backend::{
    failure_of, malformed, malformed_error, outcome_status, response_body,
    shows_upstream_error, status_text, successful_body, BackendCall, BackendCallView,
    HttpMethod, HttpOutcome, HttpOutcomeView, Operation,
};
use crate::codec::providers::{json_providers, providers_json};
use crate::error::{ErrorKind, Failure, ServiceError};
use crate::json::{parsed_document, pretty_text, Json, JsonValue};
use crate::model::{ProvidersResponse, ProvidersView};
use crate::render::{providers_blocks, render_providers};
use crate::service::{PerplexicaService, ServiceView};
use crate::views::result_view;
use vstd::prelude::*;

verus! {

/// The call that asks for the providers.
pub open spec fn spec_providers_request(service: ServiceView) -> BackendCallView {
    BackendCallView { method: HttpMethod::Get, url: service.providers_url, body: None }
}

/// The list of providers in a response body that was read as `parsed`.
pub open spec fn spec_providers_list(parsed: Result<Json, Seq<char>>) -> Result<
    ProvidersView,
    Failure,
> {
    match parsed {
        Err(description) => Err(malformed(Operation::Providers, description)),
        Ok(document) => match json_providers(document) {
            Err(description) => Err(malformed(Operation::Providers, description)),
            Ok(providers) => Ok(providers),
        },
    }
}

/// The failure of a list of providers that could not be written as text.
pub open spec fn serialization_failure(description: Seq<char>) -> Failure {
    Failure {
        kind: ErrorKind::SerializationFailure,
        message: "Failed to serialize providers data: "@ + description,
    }
}

/// The blocks that report a list of providers, where the list could be
/// written as text.
pub open spec fn spec_providers_report(
    providers: ProvidersView,
    written: Result<Seq<char>, Seq<char>>,
) -> Result<Seq<Seq<char>>, Failure> {
    match written {
        Ok(json_text) => Ok(providers_blocks(providers, json_text)),
        Err(description) => Err(serialization_failure(description)),
    }
}

/// What the providers operation returns for an outcome of its call.
pub open spec fn spec_providers_result(outcome: HttpOutcomeView) -> Result<
    Seq<Seq<char>>,
    Failure,
> {
    match response_body(Operation::Providers, outcome, status_text(outcome_status(outcome))) {
        Err(failure) => Err(failure),
        Ok(text) => match spec_providers_list(parsed_document(text)) {
            Err(failure) => Err(failure),
            Ok(providers) => spec_providers_report(
                providers,
                pretty_text(providers_json(providers)),
            ),
        },
    }
}

impl PerplexicaService {
    /// The call that asks for the providers.
    pub fn providers_request(&self) -> (call: BackendCall)
        ensures
            call@ == spec_providers_request(self@),
    {
        BackendCall { method: HttpMethod::Get, url: self.providers_url.clone(), body: None }
    }

    /// The list of providers. `parsed` is the response body read as JSON, or
    /// why it could not be read.
    pub fn providers_list(parsed: Result<JsonValue, String>) -> (r: Result<
        ProvidersResponse,
        ServiceError,
    >)
        ensures
            result_view(r) == spec_providers_list(result_view(parsed)),
    {
        match parsed {
            Err(description) => Err(malformed_error(Operation::Providers, description.as_str())),
            Ok(document) => match ProvidersResponse::from_json(&document) {
                Err(description) => Err(
                    malformed_error(Operation::Providers, description.as_str()),
                ),
                Ok(providers) => Ok(providers),
            },
        }
    }

    /// The blocks that report a list of providers. `written` is the list as
    /// indented JSON text, or why it could not be written.
    pub fn providers_report(providers: &ProvidersResponse, written: Result<String, String>) -> (r:
        Result<Vec<String>, ServiceError>)
        ensures
            result_view(r) == spec_providers_report(providers@, result_view(written)),
    {
        match written {
            Ok(json_text) => Ok(render_providers(providers, json_text.as_str())),
            Err(description) => {
                let mut message = String::from_str("Failed to serialize providers data: ");
                message.append(description.as_str());
                Err(ServiceError::new(ErrorKind::SerializationFailure, message))
            },
        }
    }

    /// What the providers operation returns for the outcome of its call: the
    /// blocks, or the one failure that the outcome amounts to.
    pub fn providers_result(&self, outcome: HttpOutcome) -> (r: Result<Vec<String>, ServiceError>)
        ensures
            result_view(r) == spec_providers_result(outcome@),
            shows_upstream_error(outcome@, failure_of(result_view(r))),
    {
        let text = successful_body(Operation::Providers, outcome)?;
        let providers = Self::providers_list(JsonValue::parse(text.as_str()))?;
        Self::providers_report(&providers, providers.to_json().to_pretty_text())
    }
}

} // verus!
