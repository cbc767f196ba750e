//! The JSON shapes of a search: the arguments that ask for one, the payload
//! sent to the backend, and the backend's answer.

use crate::codec::fields::{
    array_field, array_member, bool_field_or, bool_member_or, invalid_field,
    invalid_field_text, optional_text_field, optional_text_member, read_each, read_items,
    required, required_member, text_field, text_field_or, text_member, text_member_or,
    write_items,
};
use crate::json::{lemma_array_view, lemma_object_view, Json, JsonValue};
use crate::model::{
    ApiRequestView, ModelRefView, PerplexicaApiRequest, PerplexicaSearchRequest,
    PerplexicaSearchResponse, SearchRequestView, SearchResponseView, Source, SourceMetadata,
    SourceMetadataView, SourceView,
};
use crate::views::result_view;
use vstd::prelude::*;

verus! {

/// The focus mode of a search that names none.
pub open spec fn spec_default_focus_mode() -> Seq<char> {
    "webSearch"@
}

/// The focus mode of a search that names none.
pub fn default_focus_mode() -> (mode: String)
    ensures
        mode@ == spec_default_focus_mode(),
{
    String::from_str("webSearch")
}

/// Whether a search streams its answer where it does not say.
pub fn default_stream() -> (stream: bool)
    ensures
        !stream,
{
    false
}

/// Why an item that is not a string cannot be read as text.
pub open spec fn expected_string() -> Seq<char> {
    "invalid type: expected a string"@
}

/// Why an item that is not an array cannot be read as a row of history.
pub open spec fn expected_row() -> Seq<char> {
    "invalid type: expected an array of strings"@
}

/// The text that a document holds.
pub open spec fn json_text(document: Json) -> Result<Seq<char>, Seq<char>> {
    match document {
        Json::Text(text) => Ok(text),
        _ => Err(expected_string()),
    }
}

/// The row of history that a document holds.
pub open spec fn json_history_row(document: Json) -> Result<Seq<Seq<char>>, Seq<char>> {
    match document {
        Json::Array(items) => read_each(items, |item: Json| json_text(item)),
        _ => Err(expected_row()),
    }
}

/// The history in the member `name`, or nothing where the member is missing or null.
pub open spec fn history_field(document: Json, name: Seq<char>) -> Result<
    Option<Seq<Seq<Seq<char>>>>,
    Seq<char>,
> {
    match document.field(name) {
        None => Ok(None),
        Some(Json::Null) => Ok(None),
        Some(Json::Array(rows)) => match read_each(rows, |row: Json| json_history_row(row)) {
            Err(error) => Err(error),
            Ok(history) => Ok(Some(history)),
        },
        Some(_) => Err(invalid_field(name, "an array or null"@)),
    }
}

/// The search that a document asks for. Only the query is required: the focus
/// mode and the stream flag have defaults, the other members may be missing
/// or null. The members are read in the order below, and the first that
/// cannot be read gives the error.
pub open spec fn json_search_request(document: Json) -> Result<SearchRequestView, Seq<char>> {
    let query = text_field(document, "query"@);
    let focus_mode = text_field_or(document, "focus_mode"@, spec_default_focus_mode());
    let stream = bool_field_or(document, "stream"@, false);
    let history = history_field(document, "history"@);
    let system_instructions = optional_text_field(document, "system_instructions"@);
    let provider_id = optional_text_field(document, "provider_id"@);
    let chat_model_key = optional_text_field(document, "chat_model_key"@);
    let embedding_model_key = optional_text_field(document, "embedding_model_key"@);
    if query is Err {
        Err(query->Err_0)
    } else if focus_mode is Err {
        Err(focus_mode->Err_0)
    } else if stream is Err {
        Err(stream->Err_0)
    } else if history is Err {
        Err(history->Err_0)
    } else if system_instructions is Err {
        Err(system_instructions->Err_0)
    } else if provider_id is Err {
        Err(provider_id->Err_0)
    } else if chat_model_key is Err {
        Err(chat_model_key->Err_0)
    } else if embedding_model_key is Err {
        Err(embedding_model_key->Err_0)
    } else {
        Ok(
            SearchRequestView {
                query: query->Ok_0,
                focus_mode: focus_mode->Ok_0,
                stream: stream->Ok_0,
                history: history->Ok_0,
                system_instructions: system_instructions->Ok_0,
                provider_id: provider_id->Ok_0,
                chat_model_key: chat_model_key->Ok_0,
                embedding_model_key: embedding_model_key->Ok_0,
            },
        )
    }
}

/// Reads a text from its document.
fn text_from_json(document: &JsonValue) -> (r: Result<String, String>)
    ensures
        result_view(r) == json_text(document@),
{
    match document {
        JsonValue::Text(text) => Ok(text.clone()),
        _ => Err(String::from_str("invalid type: expected a string")),
    }
}

/// Reads a row of history from its document.
fn history_row_from_json(document: &JsonValue) -> (r: Result<Vec<String>, String>)
    ensures
        result_view(r) == json_history_row(document@),
{
    match document {
        JsonValue::Array(items) => {
            proof {
                lemma_array_view(*items);
            }
            read_items(items, text_from_json, Ghost(|item: Json| json_text(item)))
        },
        _ => Err(String::from_str("invalid type: expected an array of strings")),
    }
}

/// The history in the member `name`, or nothing where the member is missing or null.
fn history_member(document: &JsonValue, name: &str) -> (r: Result<
    Option<Vec<Vec<String>>>,
    String,
>)
    ensures
        result_view(r) == history_field(document@, name@),
{
    match document.get(name) {
        None => Ok(None),
        Some(JsonValue::Null) => Ok(None),
        Some(JsonValue::Array(rows)) => {
            proof {
                lemma_array_view(*rows);
            }
            let history = read_items(
                rows,
                history_row_from_json,
                Ghost(|row: Json| json_history_row(row)),
            )?;
            Ok(Some(history))
        },
        Some(_) => Err(invalid_field_text(name, "an array or null")),
    }
}

impl PerplexicaSearchRequest {
    /// Reads a search from the document of its arguments.
    pub fn from_json(document: &JsonValue) -> (r: Result<PerplexicaSearchRequest, String>)
        ensures
            result_view(r) == json_search_request(document@),
    {
        let query = text_member(document, "query")?;
        let focus_mode = text_member_or(document, "focus_mode", default_focus_mode())?;
        let stream = bool_member_or(document, "stream", default_stream())?;
        let history = history_member(document, "history")?;
        let system_instructions = optional_text_member(document, "system_instructions")?;
        let provider_id = optional_text_member(document, "provider_id")?;
        let chat_model_key = optional_text_member(document, "chat_model_key")?;
        let embedding_model_key = optional_text_member(document, "embedding_model_key")?;
        Ok(
            PerplexicaSearchRequest {
                query,
                focus_mode,
                stream,
                history,
                system_instructions,
                provider_id,
                chat_model_key,
                embedding_model_key,
            },
        )
    }
}

/// The document of a model reference: a provider and a key.
pub open spec fn model_ref_json(model: ModelRefView) -> Json {
    Json::Object(
        seq![("providerId"@, Json::Text(model.provider_id)), ("key"@, Json::Text(model.key))],
    )
}

/// The document of a text that may be absent: null where it is.
pub open spec fn optional_text_json(text: Option<Seq<char>>) -> Json {
    match text {
        Some(text) => Json::Text(text),
        None => Json::Null,
    }
}

/// The document of a row of history: an array of strings.
pub open spec fn history_row_json(row: Seq<Seq<char>>) -> Json {
    Json::Array(row.map_values(|text: Seq<char>| Json::Text(text)))
}

/// The document of a history that may be absent: null where it is.
pub open spec fn history_json(history: Option<Seq<Seq<Seq<char>>>>) -> Json {
    match history {
        Some(rows) => Json::Array(rows.map_values(|row: Seq<Seq<char>>| history_row_json(row))),
        None => Json::Null,
    }
}

/// The document that the backend's search endpoint takes.
pub open spec fn api_request_json(request: ApiRequestView) -> Json {
    Json::Object(
        seq![
            ("chatModel"@, model_ref_json(request.chat_model)),
            ("embeddingModel"@, model_ref_json(request.embedding_model)),
            ("optimizationMode"@, Json::Text(request.optimization_mode)),
            ("focusMode"@, Json::Text(request.focus_mode)),
            ("query"@, Json::Text(request.query)),
            ("history"@, history_json(request.history)),
            ("systemInstructions"@, optional_text_json(request.system_instructions)),
            ("stream"@, Json::Bool(request.stream)),
        ],
    )
}

/// Writes a provider and a key as a document.
fn model_ref_to_json(provider_id: &String, key: &String) -> (document: JsonValue)
    ensures
        document@ == model_ref_json(ModelRefView { provider_id: provider_id@, key: key@ }),
{
    let mut members: Vec<(String, JsonValue)> = Vec::new();
    members.push((String::from_str("providerId"), JsonValue::Text(provider_id.clone())));
    members.push((String::from_str("key"), JsonValue::Text(key.clone())));
    proof {
        lemma_object_view(members);
        assert(members.deep_view() =~= model_ref_json(
            ModelRefView { provider_id: provider_id@, key: key@ },
        )->Object_0);
    }
    JsonValue::Object(members)
}

/// Writes a text that may be absent as a document.
fn optional_text_to_json(text: &Option<String>) -> (document: JsonValue)
    ensures
        document@ == optional_text_json(text.deep_view()),
{
    match text {
        Some(text) => JsonValue::Text(text.clone()),
        None => JsonValue::Null,
    }
}

/// Writes a text as a document.
fn text_to_json(text: &String) -> (document: JsonValue)
    ensures
        document@ == Json::Text(text@),
{
    JsonValue::Text(text.clone())
}

/// Writes a row of history as a document.
fn history_row_to_json(row: &Vec<String>) -> (document: JsonValue)
    ensures
        document@ == history_row_json(row.deep_view()),
{
    let items = write_items(row, text_to_json, Ghost(|text: Seq<char>| Json::Text(text)));
    proof {
        lemma_array_view(items);
    }
    JsonValue::Array(items)
}

/// Writes a history that may be absent as a document.
fn history_to_json(history: &Option<Vec<Vec<String>>>) -> (document: JsonValue)
    ensures
        document@ == history_json(history.deep_view()),
{
    match history {
        Some(rows) => {
            let items = write_items(
                rows,
                history_row_to_json,
                Ghost(|row: Seq<Seq<char>>| history_row_json(row)),
            );
            proof {
                lemma_array_view(items);
            }
            JsonValue::Array(items)
        },
        None => JsonValue::Null,
    }
}

impl PerplexicaApiRequest {
    /// Writes the payload as the document that the backend takes.
    pub fn to_json(&self) -> (document: JsonValue)
        ensures
            document@ == api_request_json(self@),
    {
        let mut members: Vec<(String, JsonValue)> = Vec::new();
        members.push(
            (
                String::from_str("chatModel"),
                model_ref_to_json(&self.chat_model.provider_id, &self.chat_model.key),
            ),
        );
        members.push(
            (
                String::from_str("embeddingModel"),
                model_ref_to_json(&self.embedding_model.provider_id, &self.embedding_model.key),
            ),
        );
        members.push(
            (String::from_str("optimizationMode"), JsonValue::Text(self.optimization_mode.clone())),
        );
        members.push((String::from_str("focusMode"), JsonValue::Text(self.focus_mode.clone())));
        members.push((String::from_str("query"), JsonValue::Text(self.query.clone())));
        members.push((String::from_str("history"), history_to_json(&self.history)));
        members.push(
            (
                String::from_str("systemInstructions"),
                optional_text_to_json(&self.system_instructions),
            ),
        );
        members.push((String::from_str("stream"), JsonValue::Bool(self.stream)));
        proof {
            lemma_object_view(members);
            assert(members.deep_view() =~= api_request_json(self@)->Object_0);
        }
        JsonValue::Object(members)
    }
}

/// The title and address that a document holds.
pub open spec fn json_source_metadata(document: Json) -> Result<SourceMetadataView, Seq<char>> {
    match text_field(document, "title"@) {
        Err(error) => Err(error),
        Ok(title) => match text_field(document, "url"@) {
            Err(error) => Err(error),
            Ok(url) => Ok(SourceMetadataView { title, url }),
        },
    }
}

/// The source that a document holds.
pub open spec fn json_source(document: Json) -> Result<SourceView, Seq<char>> {
    match text_field(document, "pageContent"@) {
        Err(error) => Err(error),
        Ok(page_content) => match required(document, "metadata"@) {
            Err(error) => Err(error),
            Ok(inner) => match json_source_metadata(inner) {
                Err(error) => Err(error),
                Ok(metadata) => Ok(SourceView { page_content, metadata }),
            },
        },
    }
}

/// The answer to a search that a document holds.
pub open spec fn json_search_response(document: Json) -> Result<SearchResponseView, Seq<char>> {
    match text_field(document, "message"@) {
        Err(error) => Err(error),
        Ok(message) => match array_field(document, "sources"@) {
            Err(error) => Err(error),
            Ok(items) => match read_each(items, |item: Json| json_source(item)) {
                Err(error) => Err(error),
                Ok(sources) => Ok(SearchResponseView { message, sources }),
            },
        },
    }
}

impl SourceMetadata {
    /// Reads a title and an address from their document.
    pub fn from_json(document: &JsonValue) -> (r: Result<SourceMetadata, String>)
        ensures
            result_view(r) == json_source_metadata(document@),
    {
        let title = text_member(document, "title")?;
        let url = text_member(document, "url")?;
        Ok(SourceMetadata { title, url })
    }
}

impl Source {
    /// Reads a source from its document.
    pub fn from_json(document: &JsonValue) -> (r: Result<Source, String>)
        ensures
            result_view(r) == json_source(document@),
    {
        let page_content = text_member(document, "pageContent")?;
        let metadata = SourceMetadata::from_json(required_member(document, "metadata")?)?;
        Ok(Source { page_content, metadata })
    }
}

impl PerplexicaSearchResponse {
    /// Reads the answer to a search from its document.
    pub fn from_json(document: &JsonValue) -> (r: Result<PerplexicaSearchResponse, String>)
        ensures
            result_view(r) == json_search_response(document@),
    {
        let message = text_member(document, "message")?;
        let sources = read_items(
            array_member(document, "sources")?,
            Source::from_json,
            Ghost(|item: Json| json_source(item)),
        )?;
        Ok(PerplexicaSearchResponse { message, sources })
    }
}

} // verus!
