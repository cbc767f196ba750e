use perplexica_mcp::{
    JsonValue, Model, PerplexicaSearchRequest, PerplexicaSearchResponse, Provider,
    ProvidersResponse, Source, SourceMetadata,
};

fn read_search_response(text: &str) -> Result<PerplexicaSearchResponse, String> {
    PerplexicaSearchResponse::from_json(&JsonValue::parse(text).unwrap())
}

fn read_providers(text: &str) -> Result<ProvidersResponse, String> {
    ProvidersResponse::from_json(&JsonValue::parse(text).unwrap())
}

fn read_request(text: &str) -> Result<PerplexicaSearchRequest, String> {
    PerplexicaSearchRequest::from_json(&JsonValue::parse(text).unwrap())
}

#[test]
fn test_deserialize_search_response() {
    let json_data = r#"
        {
            "message": "This is a test search response with citations [1][2].",
            "sources": [
                {
                    "pageContent": "Test content 1",
                    "metadata": {
                        "title": "Test Title 1",
                        "url": "https://example.com/1"
                    }
                },
                {
                    "pageContent": "Test content 2",
                    "metadata": {
                        "title": "Test Title 2",
                        "url": "https://example.com/2"
                    }
                }
            ]
        }
        "#;

    let response: PerplexicaSearchResponse = read_search_response(json_data).unwrap();

    assert_eq!(
        response.message,
        "This is a test search response with citations [1][2]."
    );
    assert_eq!(response.sources.len(), 2);
    assert_eq!(response.sources[0].metadata.title, "Test Title 1");
    assert_eq!(response.sources[1].metadata.url, "https://example.com/2");
}

#[test]
fn test_deserialize_providers_response() {
    let json_data = r#"
        {
            "providers": [
                {
                    "id": "test-provider-1",
                    "name": "Test Provider 1",
                    "chatModels": [
                        {
                            "name": "GPT 4",
                            "key": "gpt-4"
                        }
                    ],
                    "embeddingModels": [
                        {
                            "name": "Text Embedding 3 Large",
                            "key": "text-embedding-3-large"
                        }
                    ]
                }
            ]
        }
        "#;

    let response: ProvidersResponse = read_providers(json_data).unwrap();

    assert_eq!(response.providers.len(), 1);
    assert_eq!(response.providers[0].id, "test-provider-1");
    assert_eq!(response.providers[0].name, "Test Provider 1");
    assert_eq!(response.providers[0].chat_models.len(), 1);
    assert_eq!(response.providers[0].chat_models[0].key, "gpt-4");
    assert_eq!(
        response.providers[0].embedding_models[0].name,
        "Text Embedding 3 Large"
    );
}

#[test]
fn test_deserialize_search_request() {
    let json_data = r#"
        {
            "query": "What is AI?",
            "focus_mode": "webSearch",
            "stream": false,
            "history": [
                ["human", "Hi"],
                ["assistant", "Hello"]
            ],
            "system_instructions": "Be helpful",
            "provider_id": "test-provider",
            "chat_model_key": "gpt-4",
            "embedding_model_key": "text-embedding-3-large"
        }
        "#;

    let request: PerplexicaSearchRequest = read_request(json_data).unwrap();

    assert_eq!(request.query, "What is AI?");
    assert_eq!(request.focus_mode, "webSearch");
    assert!(!request.stream);
    assert_eq!(request.history.unwrap().len(), 2);
    assert_eq!(request.system_instructions.unwrap(), "Be helpful");
    assert_eq!(request.provider_id.unwrap(), "test-provider");
    assert_eq!(request.chat_model_key.unwrap(), "gpt-4");
    assert_eq!(
        request.embedding_model_key.unwrap(),
        "text-embedding-3-large"
    );
}

#[test]
fn test_default_values() {
    let json_data = r#"
        {
            "query": "Test query"
        }
        "#;

    let request: PerplexicaSearchRequest = read_request(json_data).unwrap();

    assert_eq!(request.query, "Test query");
    assert_eq!(request.focus_mode, "webSearch");
    assert!(!request.stream);
    assert!(request.history.is_none());
    assert!(request.system_instructions.is_none());
    assert!(request.provider_id.is_none());
    assert!(request.chat_model_key.is_none());
    assert!(request.embedding_model_key.is_none());
}

#[test]
fn defaults_are_the_documented_ones() {
    assert_eq!(perplexica_mcp::default_focus_mode(), "webSearch");
    assert!(!perplexica_mcp::default_stream());
}

#[test]
fn request_keeps_history_rows_in_order() {
    let request = read_request(
        r#"{"query": "q", "focus_mode": "academicSearch", "stream": true,
            "history": [["human", "Hi"], ["assistant", "Hello"], []]}"#,
    )
    .unwrap();
    assert_eq!(request.focus_mode, "academicSearch");
    assert!(request.stream);
    assert_eq!(
        request.history,
        Some(vec![
            vec!["human".to_string(), "Hi".to_string()],
            vec!["assistant".to_string(), "Hello".to_string()],
            vec![],
        ])
    );
}

#[test]
fn request_takes_null_for_an_absent_option() {
    let request = read_request(
        r#"{"query": "q", "history": null, "system_instructions": null, "provider_id": null,
            "chat_model_key": null, "embedding_model_key": null}"#,
    )
    .unwrap();
    assert_eq!(request.history, None);
    assert_eq!(request.system_instructions, None);
    assert_eq!(request.provider_id, None);
    assert_eq!(request.chat_model_key, None);
    assert_eq!(request.embedding_model_key, None);
}

#[test]
fn request_refuses_wrong_shapes() {
    assert_eq!(read_request("{}"), Err("missing field `query`".to_string()));
    assert_eq!(read_request("[]"), Err("invalid type: expected an object".to_string()));
    assert_eq!(
        read_request(r#"{"query": 3}"#),
        Err("invalid type for field `query`: expected a string".to_string())
    );
    assert_eq!(
        read_request(r#"{"query": "q", "focus_mode": null}"#),
        Err("invalid type for field `focus_mode`: expected a string".to_string())
    );
    assert_eq!(
        read_request(r#"{"query": "q", "stream": "yes"}"#),
        Err("invalid type for field `stream`: expected a boolean".to_string())
    );
    assert_eq!(
        read_request(r#"{"query": "q", "history": "none"}"#),
        Err("invalid type for field `history`: expected an array or null".to_string())
    );
    assert_eq!(
        read_request(r#"{"query": "q", "history": [["a"], "b"]}"#),
        Err("invalid type: expected an array of strings".to_string())
    );
    assert_eq!(
        read_request(r#"{"query": "q", "history": [["a", 1]]}"#),
        Err("invalid type: expected a string".to_string())
    );
    assert_eq!(
        read_request(r#"{"query": "q", "provider_id": 1}"#),
        Err("invalid type for field `provider_id`: expected a string or null".to_string())
    );
}

#[test]
fn search_response_refuses_wrong_shapes() {
    assert_eq!(read_search_response("3"), Err("invalid type: expected an object".to_string()));
    assert_eq!(read_search_response("{}"), Err("missing field `message`".to_string()));
    assert_eq!(
        read_search_response(r#"{"message": "m"}"#),
        Err("missing field `sources`".to_string())
    );
    assert_eq!(
        read_search_response(r#"{"message": "m", "sources": {}}"#),
        Err("invalid type for field `sources`: expected an array".to_string())
    );
    assert_eq!(
        read_search_response(r#"{"message": "m", "sources": [{"pageContent": "c"}]}"#),
        Err("missing field `metadata`".to_string())
    );
    assert_eq!(
        read_search_response(
            r#"{"message": "m", "sources": [{"pageContent": "c", "metadata": []}]}"#
        ),
        Err("invalid type: expected an object".to_string())
    );
    assert_eq!(
        read_search_response(
            r#"{"message": "m", "sources": [{"pageContent": "c", "metadata": {"title": "t"}}]}"#
        ),
        Err("missing field `url`".to_string())
    );
}

#[test]
fn search_response_reports_the_first_source_that_is_wrong() {
    let text = r#"{"message": "m", "sources": [
        {"pageContent": "c", "metadata": {"title": "t", "url": "u"}},
        {"pageContent": 1, "metadata": {"title": "t", "url": "u"}},
        {"metadata": {"title": "t", "url": "u"}}
    ]}"#;
    assert_eq!(
        read_search_response(text),
        Err("invalid type for field `pageContent`: expected a string".to_string())
    );
}

#[test]
fn search_response_keeps_page_content_and_order() {
    let response = read_search_response(
        r#"{"sources": [
            {"metadata": {"url": "u1", "title": "t1"}, "pageContent": "c1", "extra": 1},
            {"pageContent": "c2", "metadata": {"title": "t2", "url": "u2"}}
        ], "message": "m"}"#,
    )
    .unwrap();
    assert_eq!(
        response,
        PerplexicaSearchResponse {
            message: "m".to_string(),
            sources: vec![
                Source {
                    page_content: "c1".to_string(),
                    metadata: SourceMetadata { title: "t1".to_string(), url: "u1".to_string() },
                },
                Source {
                    page_content: "c2".to_string(),
                    metadata: SourceMetadata { title: "t2".to_string(), url: "u2".to_string() },
                },
            ],
        }
    );
}

#[test]
fn providers_refuse_wrong_shapes() {
    assert_eq!(read_providers("{}"), Err("missing field `providers`".to_string()));
    assert_eq!(
        read_providers(r#"{"providers": [{"id": "p"}]}"#),
        Err("missing field `name`".to_string())
    );
    assert_eq!(
        read_providers(r#"{"providers": [{"id": "p", "name": "P", "chatModels": 1}]}"#),
        Err("invalid type for field `chatModels`: expected an array".to_string())
    );
    assert_eq!(
        read_providers(
            r#"{"providers": [{"id": "p", "name": "P", "chatModels": [{"name": "n"}],
                "embeddingModels": []}]}"#
        ),
        Err("missing field `key`".to_string())
    );
    assert_eq!(
        read_providers(r#"{"providers": [{"id": "p", "name": "P", "chatModels": []}]}"#),
        Err("missing field `embeddingModels`".to_string())
    );
}

fn sample_providers() -> ProvidersResponse {
    ProvidersResponse {
        providers: vec![
            Provider {
                id: "openai".to_string(),
                name: "OpenAI".to_string(),
                chat_models: vec![
                    Model { name: "GPT 4".to_string(), key: "gpt-4".to_string() },
                    Model { name: "GPT 4o \"mini\"".to_string(), key: "gpt-4o-mini".to_string() },
                ],
                embedding_models: vec![Model {
                    name: "Text Embedding 3 Large".to_string(),
                    key: "text-embedding-3-large".to_string(),
                }],
            },
            Provider {
                id: "empty".to_string(),
                name: "".to_string(),
                chat_models: vec![],
                embedding_models: vec![],
            },
        ],
    }
}

#[test]
fn providers_round_trip_through_a_document() {
    let providers = sample_providers();
    assert_eq!(ProvidersResponse::from_json(&providers.to_json()), Ok(providers));
    let none = ProvidersResponse { providers: vec![] };
    assert_eq!(ProvidersResponse::from_json(&none.to_json()), Ok(none));
}

#[test]
fn providers_round_trip_through_text() {
    let providers = sample_providers();
    let compact = providers.to_json().to_text().unwrap();
    assert_eq!(read_providers(&compact), Ok(sample_providers()));
    let pretty = providers.to_json().to_pretty_text().unwrap();
    assert_eq!(read_providers(&pretty), Ok(sample_providers()));
}

#[test]
fn provider_document_has_the_wire_names_in_order() {
    let provider = Provider {
        id: "p".to_string(),
        name: "P".to_string(),
        chat_models: vec![Model { name: "N".to_string(), key: "k".to_string() }],
        embedding_models: vec![],
    };
    assert_eq!(
        provider.to_json().to_text().unwrap(),
        r#"{"id":"p","name":"P","chatModels":[{"name":"N","key":"k"}],"embeddingModels":[]}"#
    );
    assert_eq!(Provider::from_json(&provider.to_json()), Ok(provider));
    let model = Model { name: "N".to_string(), key: "k".to_string() };
    assert_eq!(Model::from_json(&model.to_json()), Ok(model));
}
