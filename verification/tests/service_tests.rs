use perplexica_mcp::backend::{malformed_error, no_response_error, successful_body, upstream_failure};
use perplexica_mcp::{
    BackendCall, ErrorKind, HttpMethod, HttpOutcome, JsonValue, Model, Operation,
    PerplexicaSearchRequest, PerplexicaService, Provider, ProviderDefaults, ProvidersResponse,
    ServiceError,
};

fn no_defaults() -> ProviderDefaults {
    ProviderDefaults { provider_id: None, chat_model_key: None, embedding_model_key: None }
}

fn all_defaults() -> ProviderDefaults {
    ProviderDefaults {
        provider_id: Some("env-provider".to_string()),
        chat_model_key: Some("env-chat".to_string()),
        embedding_model_key: Some("env-embedding".to_string()),
    }
}

fn service(defaults: ProviderDefaults) -> PerplexicaService {
    PerplexicaService::new(Some("http://localhost:3000/".to_string()), defaults).unwrap()
}

fn query(text: &str) -> PerplexicaSearchRequest {
    PerplexicaSearchRequest {
        query: text.to_string(),
        focus_mode: "webSearch".to_string(),
        stream: false,
        history: None,
        system_instructions: None,
        provider_id: None,
        chat_model_key: None,
        embedding_model_key: None,
    }
}

fn missing(field: &str, var: &str) -> ServiceError {
    ServiceError {
        kind: ErrorKind::MissingConfiguration,
        message: format!(
            "Missing {}. Set either the {} parameter or {} environment variable",
            field, field, var
        ),
    }
}

fn reply(status: u16, body: &str) -> HttpOutcome {
    HttpOutcome::Response { status, body: Ok(body.to_string()) }
}

#[test]
fn new_builds_both_addresses() {
    let s = service(all_defaults());
    assert_eq!(s.search_url, "http://localhost:3000/api/search");
    assert_eq!(s.providers_url, "http://localhost:3000/api/providers");
    assert_eq!(s.defaults, all_defaults());
    let bare = PerplexicaService::new(Some("https://p.example".to_string()), no_defaults()).unwrap();
    assert_eq!(bare.search_url, "https://p.example/api/search");
    let many = PerplexicaService::new(Some("https://p.example/x//".to_string()), no_defaults()).unwrap();
    assert_eq!(many.providers_url, "https://p.example/x/api/providers");
}

#[test]
fn new_needs_a_base_address() {
    assert_eq!(
        PerplexicaService::new(None, all_defaults()),
        Err(ServiceError {
            kind: ErrorKind::MissingConfiguration,
            message: "PERPLEXICA_API_URL environment variable must be set".to_string(),
        })
    );
}

#[test]
fn supplied_value_wins_over_the_environment() {
    let env = Some("from-env".to_string());
    assert_eq!(
        PerplexicaService::resolve_provider_value(Some("given".to_string()), &env, "VAR", "field"),
        Ok("given".to_string())
    );
    assert_eq!(
        PerplexicaService::resolve_provider_value(Some("given".to_string()), &None, "VAR", "field"),
        Ok("given".to_string())
    );
    assert_eq!(
        PerplexicaService::resolve_provider_value(Some(String::new()), &env, "VAR", "field"),
        Ok(String::new())
    );
}

#[test]
fn environment_is_the_fallback() {
    let env = Some("from-env".to_string());
    assert_eq!(
        PerplexicaService::resolve_provider_value(None, &env, "VAR", "field"),
        Ok("from-env".to_string())
    );
}

#[test]
fn missing_value_names_field_and_variable() {
    let r = PerplexicaService::resolve_provider_value(None, &None, "SOME_VAR", "some_field");
    assert_eq!(
        r,
        Err(ServiceError {
            kind: ErrorKind::MissingConfiguration,
            message:
                "Missing some_field. Set either the some_field parameter or SOME_VAR environment variable"
                    .to_string(),
        })
    );
    assert_eq!(r.unwrap_err().code(), -32602);
}

#[test]
fn search_without_identifiers_cites_provider_id() {
    let r = service(no_defaults()).search_request(query("What is AI?"));
    assert_eq!(r, Err(missing("provider_id", "PERPLEXICA_PROVIDER_ID")));
}

#[test]
fn search_with_provider_only_cites_chat_model_key() {
    let mut request = query("q");
    request.provider_id = Some("p".to_string());
    let r = service(no_defaults()).search_request(request);
    assert_eq!(r, Err(missing("chat_model_key", "PERPLEXICA_CHAT_MODEL_KEY")));
}

#[test]
fn search_without_embedding_key_cites_it_last() {
    let mut request = query("q");
    request.provider_id = Some("p".to_string());
    request.chat_model_key = Some("c".to_string());
    let r = service(no_defaults()).build_api_request(request);
    assert_eq!(r, Err(missing("embedding_model_key", "PERPLEXICA_EMBEDDING_MODEL_KEY")));
    let mut defaults = no_defaults();
    defaults.chat_model_key = Some("c".to_string());
    defaults.embedding_model_key = Some("e".to_string());
    let r = service(defaults).build_api_request(query("q"));
    assert_eq!(r, Err(missing("provider_id", "PERPLEXICA_PROVIDER_ID")));
}

#[test]
fn payload_uses_one_provider_for_both_models() {
    let mut request = query("What is AI?");
    request.chat_model_key = Some("gpt-4".to_string());
    request.history = Some(vec![vec!["human".to_string(), "Hi".to_string()]]);
    request.system_instructions = Some("Be helpful".to_string());
    request.stream = true;
    request.focus_mode = "academicSearch".to_string();
    let payload = service(all_defaults()).build_api_request(request).unwrap();
    assert_eq!(payload.chat_model.provider_id, "env-provider");
    assert_eq!(payload.chat_model.key, "gpt-4");
    assert_eq!(payload.embedding_model.provider_id, "env-provider");
    assert_eq!(payload.embedding_model.key, "env-embedding");
    assert_eq!(payload.optimization_mode, "speed");
    assert_eq!(payload.focus_mode, "academicSearch");
    assert_eq!(payload.query, "What is AI?");
    assert_eq!(payload.history, Some(vec![vec!["human".to_string(), "Hi".to_string()]]));
    assert_eq!(payload.system_instructions, Some("Be helpful".to_string()));
    assert!(payload.stream);
}

#[test]
fn search_request_posts_the_payload() {
    let mut request = query("What is \"AI\"?");
    request.history = Some(vec![
        vec!["human".to_string(), "Hi".to_string()],
        vec!["assistant".to_string(), "Hello".to_string()],
    ]);
    let call = service(all_defaults()).search_request(request).unwrap();
    assert_eq!(
        call,
        BackendCall {
            method: HttpMethod::Post,
            url: "http://localhost:3000/api/search".to_string(),
            body: Some(
                concat_all(&[
                    r#"{"chatModel":{"providerId":"env-provider","key":"env-chat"},"#,
                    r#""embeddingModel":{"providerId":"env-provider","key":"env-embedding"},"#,
                    r#""optimizationMode":"speed","focusMode":"webSearch","#,
                    r#""query":"What is \"AI\"?","#,
                    r#""history":[["human","Hi"],["assistant","Hello"]],"#,
                    r#""systemInstructions":null,"stream":false}"#,
                ])
            ),
        }
    );
}

fn concat_all(parts: &[&str]) -> String {
    parts.iter().map(|p| p.to_string()).collect::<Vec<String>>().join("")
}

#[test]
fn search_request_writes_null_for_no_history() {
    let call = service(all_defaults()).search_request(query("q")).unwrap();
    let body = JsonValue::parse(&call.body.unwrap()).unwrap();
    assert_eq!(body.get("history"), Some(&JsonValue::Null));
    assert_eq!(body.get("systemInstructions"), Some(&JsonValue::Null));
    assert_eq!(body.get("stream"), Some(&JsonValue::Bool(false)));
    assert_eq!(body.get("optimizationMode"), Some(&JsonValue::Text("speed".to_string())));
}

#[test]
fn search_call_reports_a_payload_that_cannot_be_written() {
    let s = service(all_defaults());
    assert_eq!(
        s.search_call(Err("key must be a string".to_string())),
        Err(ServiceError {
            kind: ErrorKind::UpstreamUnreachable,
            message: "Search request failed: key must be a string".to_string(),
        })
    );
    assert_eq!(
        s.search_call(Ok("{}".to_string())),
        Ok(BackendCall {
            method: HttpMethod::Post,
            url: "http://localhost:3000/api/search".to_string(),
            body: Some("{}".to_string()),
        })
    );
}

#[test]
fn providers_request_is_a_plain_get() {
    assert_eq!(
        service(no_defaults()).providers_request(),
        BackendCall {
            method: HttpMethod::Get,
            url: "http://localhost:3000/api/providers".to_string(),
            body: None,
        }
    );
}

#[test]
fn transport_failure_is_upstream_unreachable() {
    let s = service(all_defaults());
    let r = s.search_result(HttpOutcome::Unreachable { description: "connection refused".to_string() });
    assert_eq!(
        r,
        Err(ServiceError {
            kind: ErrorKind::UpstreamUnreachable,
            message: "Search request failed: connection refused".to_string(),
        })
    );
    let r = s.providers_result(HttpOutcome::Unreachable { description: "timed out".to_string() });
    assert_eq!(
        r,
        Err(ServiceError {
            kind: ErrorKind::UpstreamUnreachable,
            message: "Providers request failed: timed out".to_string(),
        })
    );
    assert_eq!(
        no_response_error(Operation::Search, "x"),
        ServiceError {
            kind: ErrorKind::UpstreamUnreachable,
            message: "Search request failed: x".to_string()
        }
    );
}

#[test]
fn status_500_is_upstream_error_with_status_and_body() {
    let s = service(all_defaults());
    let error = s.search_result(reply(500, "internal error")).unwrap_err();
    assert_eq!(error.kind, ErrorKind::UpstreamError);
    assert!(error.message.contains("500"));
    assert!(error.message.contains("internal error"));
    assert_eq!(
        error.message,
        "Perplexica search API error (status 500 Internal Server Error): internal error"
    );
    assert_eq!(error.code(), -32603);
    let error = s.providers_result(reply(404, "")).unwrap_err();
    assert_eq!(error.kind, ErrorKind::UpstreamError);
    assert_eq!(error.message, "Perplexica providers API error (status 404 Not Found): ");
}

#[test]
fn unread_error_body_gets_a_placeholder() {
    let s = service(all_defaults());
    let outcome = HttpOutcome::Response { status: 503, body: Err("reset by peer".to_string()) };
    assert_eq!(
        s.search_result(outcome),
        Err(ServiceError {
            kind: ErrorKind::UpstreamError,
            message:
                "Perplexica search API error (status 503 Service Unavailable): Failed to read error response"
                    .to_string(),
        })
    );
}

#[test]
fn status_without_a_status_line_shows_its_number() {
    let error = successful_body(Operation::Search, reply(42, "odd")).unwrap_err();
    assert_eq!(error.message, "Perplexica search API error (status 42): odd");
    let error = successful_body(Operation::Search, reply(299, "fine"));
    assert_eq!(error, Ok("fine".to_string()));
    let error = successful_body(Operation::Search, reply(199, "early")).unwrap_err();
    assert_eq!(error.message, "Perplexica search API error (status 199 <unknown status code>): early");
    let error = successful_body(Operation::Providers, reply(300, "moved")).unwrap_err();
    assert_eq!(
        error.message,
        "Perplexica providers API error (status 300 Multiple Choices): moved"
    );
    assert_eq!(
        upstream_failure(Operation::Search, 7, None, &Ok("b".to_string())).message,
        "Perplexica search API error (status 7): b"
    );
    assert_eq!(
        upstream_failure(Operation::Search, 7, Some("seven".to_string()), &Err("e".to_string()))
            .message,
        "Perplexica search API error (status seven): Failed to read error response"
    );
}

#[test]
fn unread_body_of_a_success_is_malformed() {
    let s = service(all_defaults());
    let outcome = HttpOutcome::Response { status: 200, body: Err("body cut short".to_string()) };
    assert_eq!(
        s.search_result(outcome),
        Err(ServiceError {
            kind: ErrorKind::MalformedResponse,
            message: "Failed to parse search response as JSON: body cut short".to_string(),
        })
    );
    assert_eq!(
        malformed_error(Operation::Providers, "x").message,
        "Failed to parse providers response as JSON: x"
    );
}

#[test]
fn body_that_is_no_json_is_malformed() {
    let s = service(all_defaults());
    assert_eq!(
        s.search_result(reply(200, "<html>")),
        Err(ServiceError {
            kind: ErrorKind::MalformedResponse,
            message: "Failed to parse search response as JSON: expected value at line 1 column 1"
                .to_string(),
        })
    );
    assert_eq!(
        s.providers_result(reply(200, "")),
        Err(ServiceError {
            kind: ErrorKind::MalformedResponse,
            message:
                "Failed to parse providers response as JSON: EOF while parsing a value at line 1 column 0"
                    .to_string(),
        })
    );
}

#[test]
fn body_of_the_wrong_shape_is_malformed() {
    let s = service(all_defaults());
    assert_eq!(
        s.search_result(reply(200, r#"{"message": "m"}"#)),
        Err(ServiceError {
            kind: ErrorKind::MalformedResponse,
            message: "Failed to parse search response as JSON: missing field `sources`".to_string(),
        })
    );
    assert_eq!(
        s.providers_result(reply(201, r#"{"providers": {}}"#)),
        Err(ServiceError {
            kind: ErrorKind::MalformedResponse,
            message:
                "Failed to parse providers response as JSON: invalid type for field `providers`: expected an array"
                    .to_string(),
        })
    );
}

#[test]
fn search_result_renders_the_report() {
    let s = service(all_defaults());
    let body = r#"{"message": "Answer [1].", "sources": [
        {"pageContent": "c", "metadata": {"title": "T", "url": "https://t.example"}}]}"#;
    assert_eq!(
        s.search_result(reply(200, body)),
        Ok("## Summary\n\nAnswer [1].\n\n## Sources\n\n- T\n  - https://t.example\n".to_string())
    );
    let body = r#"{"message": "Nothing.", "sources": []}"#;
    assert_eq!(
        s.search_result(reply(204, body)),
        Ok("## Summary\n\nNothing.\n\n## Sources\n\nNo sources found.\n".to_string())
    );
}

#[test]
fn search_report_takes_the_parsed_body() {
    let doc = JsonValue::Object(vec![
        ("message".to_string(), JsonValue::Text("m".to_string())),
        ("sources".to_string(), JsonValue::Array(vec![])),
    ]);
    assert_eq!(
        PerplexicaService::search_report(Ok(doc)),
        Ok("## Summary\n\nm\n\n## Sources\n\nNo sources found.\n".to_string())
    );
    assert_eq!(
        PerplexicaService::search_report(Err("bad".to_string())),
        Err(ServiceError {
            kind: ErrorKind::MalformedResponse,
            message: "Failed to parse search response as JSON: bad".to_string(),
        })
    );
}

#[test]
fn providers_result_renders_counts_and_full_json() {
    let s = service(no_defaults());
    let body = r#"{"providers":[{"id":"test-provider-1","name":"Test Provider 1",
        "chatModels":[{"name":"GPT 4","key":"gpt-4"}],
        "embeddingModels":[{"name":"Text Embedding 3 Large","key":"text-embedding-3-large"}]}]}"#;
    let blocks = s.providers_result(reply(200, body)).unwrap();
    assert_eq!(blocks.len(), 3);
    assert_eq!(blocks[0], "Found 1 providers available:");
    assert_eq!(
        blocks[1],
        "\n## Test Provider 1\nID: test-provider-1\nChat Models: 1\nEmbedding Models: 1"
    );
    assert!(blocks[1].contains("Chat Models: 1"));
    assert!(blocks[1].contains("Embedding Models: 1"));
    let expected_json = r#"{
  "providers": [
    {
      "id": "test-provider-1",
      "name": "Test Provider 1",
      "chatModels": [
        {
          "name": "GPT 4",
          "key": "gpt-4"
        }
      ],
      "embeddingModels": [
        {
          "name": "Text Embedding 3 Large",
          "key": "text-embedding-3-large"
        }
      ]
    }
  ]
}"#;
    assert_eq!(
        blocks[2],
        format!("\n\n## Complete Response (JSON)\n\n```json\n{}\n```", expected_json)
    );
    assert!(blocks[2].contains("\"gpt-4\""));
    assert!(blocks[2].contains("\"text-embedding-3-large\""));
}

#[test]
fn providers_report_fails_when_the_list_cannot_be_written() {
    let providers = ProvidersResponse {
        providers: vec![Provider {
            id: "p".to_string(),
            name: "P".to_string(),
            chat_models: vec![Model { name: "n".to_string(), key: "k".to_string() }],
            embedding_models: vec![],
        }],
    };
    assert_eq!(
        PerplexicaService::providers_report(&providers, Err("no space".to_string())),
        Err(ServiceError {
            kind: ErrorKind::SerializationFailure,
            message: "Failed to serialize providers data: no space".to_string(),
        })
    );
    assert_eq!(
        PerplexicaService::providers_report(&providers, Ok("[]".to_string())),
        Ok(vec![
            "Found 1 providers available:".to_string(),
            "\n## P\nID: p\nChat Models: 1\nEmbedding Models: 0".to_string(),
            "\n\n## Complete Response (JSON)\n\n```json\n[]\n```".to_string(),
        ])
    );
}

#[test]
fn providers_list_takes_the_parsed_body() {
    assert_eq!(
        PerplexicaService::providers_list(Ok(JsonValue::Null)),
        Err(ServiceError {
            kind: ErrorKind::MalformedResponse,
            message: "Failed to parse providers response as JSON: invalid type: expected an object"
                .to_string(),
        })
    );
    let doc = JsonValue::Object(vec![("providers".to_string(), JsonValue::Array(vec![]))]);
    assert_eq!(
        PerplexicaService::providers_list(Ok(doc)),
        Ok(ProvidersResponse { providers: vec![] })
    );
}

#[test]
fn error_kinds_map_to_wire_codes() {
    assert_eq!(ErrorKind::MissingConfiguration.code(), -32602);
    assert_eq!(ErrorKind::UpstreamUnreachable.code(), -32603);
    assert_eq!(ErrorKind::UpstreamError.code(), -32603);
    assert_eq!(ErrorKind::MalformedResponse.code(), -32603);
    assert_eq!(ErrorKind::SerializationFailure.code(), -32603);
}

#[test]
fn get_info_describes_the_service() {
    let info = service(no_defaults()).get_info();
    assert_eq!(info.protocol_version, "2024-11-05");
    assert!(info.tools);
    assert!(info.instructions.starts_with("A Perplexica API service"));
    assert!(info.instructions.contains("perplexica_providers"));
    assert!(info.instructions.contains("PERPLEXICA_EMBEDDING_MODEL_KEY"));
}
