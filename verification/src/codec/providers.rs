//! The JSON shape of the list of providers.

use crate::codec::fields::{
    array_field, array_member, lemma_read_each_written, read_each, read_items, text_field,
    text_member, write_items,
};
use crate::json::{lemma_array_view, lemma_object_view, member, Json, JsonValue};
use crate::model::{Model, ModelView, Provider, ProviderView, ProvidersResponse, ProvidersView};
use crate::views::result_view;
use vstd::prelude::*;

verus! {

/// The document of a model.
pub open spec fn model_json(model: ModelView) -> Json {
    Json::Object(seq![("name"@, Json::Text(model.name)), ("key"@, Json::Text(model.key))])
}

/// The model that a document holds.
pub open spec fn json_model(document: Json) -> Result<ModelView, Seq<char>> {
    match text_field(document, "name"@) {
        Err(error) => Err(error),
        Ok(name) => match text_field(document, "key"@) {
            Err(error) => Err(error),
            Ok(key) => Ok(ModelView { name, key }),
        },
    }
}

/// The documents of models, in order.
pub open spec fn models_json(models: Seq<ModelView>) -> Seq<Json> {
    models.map_values(|model: ModelView| model_json(model))
}

/// The models that documents hold, in order.
pub open spec fn json_models(items: Seq<Json>) -> Result<Seq<ModelView>, Seq<char>> {
    read_each(items, |item: Json| json_model(item))
}

/// The models in the member `name` of the object `document`.
pub open spec fn json_models_field(document: Json, name: Seq<char>) -> Result<
    Seq<ModelView>,
    Seq<char>,
> {
    match array_field(document, name) {
        Ok(items) => json_models(items),
        Err(error) => Err(error),
    }
}

/// The document of a provider.
pub open spec fn provider_json(provider: ProviderView) -> Json {
    Json::Object(
        seq![
            ("id"@, Json::Text(provider.id)),
            ("name"@, Json::Text(provider.name)),
            ("chatModels"@, Json::Array(models_json(provider.chat_models))),
            ("embeddingModels"@, Json::Array(models_json(provider.embedding_models))),
        ],
    )
}

/// The provider that a document holds. The members are read in the order
/// below, and the first that cannot be read gives the error.
pub open spec fn json_provider(document: Json) -> Result<ProviderView, Seq<char>> {
    let id = text_field(document, "id"@);
    let name = text_field(document, "name"@);
    let chat_models = json_models_field(document, "chatModels"@);
    let embedding_models = json_models_field(document, "embeddingModels"@);
    if id is Err {
        Err(id->Err_0)
    } else if name is Err {
        Err(name->Err_0)
    } else if chat_models is Err {
        Err(chat_models->Err_0)
    } else if embedding_models is Err {
        Err(embedding_models->Err_0)
    } else {
        Ok(
            ProviderView {
                id: id->Ok_0,
                name: name->Ok_0,
                chat_models: chat_models->Ok_0,
                embedding_models: embedding_models->Ok_0,
            },
        )
    }
}

/// The document of a list of providers.
pub open spec fn providers_json(providers: ProvidersView) -> Json {
    Json::Object(
        seq![
            (
                "providers"@,
                Json::Array(
                    providers.providers.map_values(|provider: ProviderView| provider_json(provider)),
                ),
            ),
        ],
    )
}

/// The list of providers that a document holds.
pub open spec fn json_providers(document: Json) -> Result<ProvidersView, Seq<char>> {
    match array_field(document, "providers"@) {
        Err(error) => Err(error),
        Ok(items) => match read_each(items, |item: Json| json_provider(item)) {
            Err(error) => Err(error),
            Ok(providers) => Ok(ProvidersView { providers }),
        },
    }
}

impl Model {
    /// Reads a model from its document.
    pub fn from_json(document: &JsonValue) -> (r: Result<Model, String>)
        ensures
            result_view(r) == json_model(document@),
    {
        let name = text_member(document, "name")?;
        let key = text_member(document, "key")?;
        Ok(Model { name, key })
    }

    /// Writes the model as a document.
    pub fn to_json(&self) -> (document: JsonValue)
        ensures
            document@ == model_json(self@),
    {
        let mut members: Vec<(String, JsonValue)> = Vec::new();
        members.push((String::from_str("name"), JsonValue::Text(self.name.clone())));
        members.push((String::from_str("key"), JsonValue::Text(self.key.clone())));
        proof {
            lemma_object_view(members);
            assert(members.deep_view() =~= model_json(self@)->Object_0);
        }
        JsonValue::Object(members)
    }
}

/// Reads the models of an array.
fn models_from_json(items: &Vec<JsonValue>) -> (r: Result<Vec<Model>, String>)
    ensures
        result_view(r) == json_models(items.deep_view()),
{
    read_items(items, Model::from_json, Ghost(|item: Json| json_model(item)))
}

/// Writes models as an array.
fn models_to_json(models: &Vec<Model>) -> (document: JsonValue)
    ensures
        document@ == Json::Array(models_json(models.deep_view())),
{
    let items = write_items(models, Model::to_json, Ghost(|model: ModelView| model_json(model)));
    proof {
        lemma_array_view(items);
    }
    JsonValue::Array(items)
}

impl Provider {
    /// Reads a provider from its document.
    pub fn from_json(document: &JsonValue) -> (r: Result<Provider, String>)
        ensures
            result_view(r) == json_provider(document@),
    {
        let id = text_member(document, "id")?;
        let name = text_member(document, "name")?;
        let chat_models = models_from_json(array_member(document, "chatModels")?)?;
        let embedding_models = models_from_json(array_member(document, "embeddingModels")?)?;
        Ok(Provider { id, name, chat_models, embedding_models })
    }

    /// Writes the provider as a document.
    pub fn to_json(&self) -> (document: JsonValue)
        ensures
            document@ == provider_json(self@),
    {
        let mut members: Vec<(String, JsonValue)> = Vec::new();
        members.push((String::from_str("id"), JsonValue::Text(self.id.clone())));
        members.push((String::from_str("name"), JsonValue::Text(self.name.clone())));
        members.push((String::from_str("chatModels"), models_to_json(&self.chat_models)));
        members.push((String::from_str("embeddingModels"), models_to_json(&self.embedding_models)));
        proof {
            lemma_object_view(members);
            assert(members.deep_view() =~= provider_json(self@)->Object_0);
        }
        JsonValue::Object(members)
    }
}

impl ProvidersResponse {
    /// Reads a list of providers from its document.
    pub fn from_json(document: &JsonValue) -> (r: Result<ProvidersResponse, String>)
        ensures
            result_view(r) == json_providers(document@),
    {
        let providers = read_items(
            array_member(document, "providers")?,
            Provider::from_json,
            Ghost(|item: Json| json_provider(item)),
        )?;
        Ok(ProvidersResponse { providers })
    }

    /// Writes the list of providers as a document.
    pub fn to_json(&self) -> (document: JsonValue)
        ensures
            document@ == providers_json(self@),
    {
        let items = write_items(
            &self.providers,
            Provider::to_json,
            Ghost(|provider: ProviderView| provider_json(provider)),
        );
        let mut members: Vec<(String, JsonValue)> = Vec::new();
        proof {
            lemma_array_view(items);
        }
        members.push((String::from_str("providers"), JsonValue::Array(items)));
        proof {
            lemma_object_view(members);
            assert(members.deep_view() =~= providers_json(self@)->Object_0);
        }
        JsonValue::Object(members)
    }
}

/// A model written as a document reads back as the same model.
pub proof fn lemma_model_round_trip(model: ModelView)
    ensures
        json_model(model_json(model)) == Ok::<ModelView, Seq<char>>(model),
{
    reveal_with_fuel(member, 3);
    reveal_strlit("name");
    reveal_strlit("key");
}

/// A provider written as a document reads back as the same provider: every
/// field, and every model in its place.
pub proof fn lemma_provider_round_trip(provider: ProviderView)
    ensures
        json_provider(provider_json(provider)) == Ok::<ProviderView, Seq<char>>(provider),
{
    let document = provider_json(provider);
    let chat_items = models_json(provider.chat_models);
    let embedding_items = models_json(provider.embedding_models);
    assert(text_field(document, "id"@) == Ok::<Seq<char>, Seq<char>>(provider.id)
        && text_field(document, "name"@) == Ok::<Seq<char>, Seq<char>>(provider.name)
        && array_field(document, "chatModels"@) == Ok::<Seq<Json>, Seq<char>>(chat_items)
        && array_field(document, "embeddingModels"@) == Ok::<Seq<Json>, Seq<char>>(
        embedding_items,
    )) by {
        reveal_with_fuel(member, 5);
        reveal_strlit("id");
        reveal_strlit("name");
        reveal_strlit("chatModels");
        reveal_strlit("embeddingModels");
    }
    assert forall|model: ModelView| #[trigger]
        json_model(model_json(model)) == Ok::<ModelView, Seq<char>>(model) by {
        lemma_model_round_trip(model);
    }
    lemma_read_each_written(
        provider.chat_models,
        |model: ModelView| model_json(model),
        |item: Json| json_model(item),
    );
    lemma_read_each_written(
        provider.embedding_models,
        |model: ModelView| model_json(model),
        |item: Json| json_model(item),
    );
    assert(json_models(chat_items) == Ok::<Seq<ModelView>, Seq<char>>(provider.chat_models));
    assert(json_models(embedding_items) == Ok::<Seq<ModelView>, Seq<char>>(
        provider.embedding_models,
    ));
}

/// A list of providers written as a document reads back as the same list:
/// field for field, in the same order.
pub proof fn lemma_providers_round_trip(providers: ProvidersView)
    ensures
        json_providers(providers_json(providers)) == Ok::<ProvidersView, Seq<char>>(providers),
{
    reveal_with_fuel(member, 2);
    assert forall|provider: ProviderView| #[trigger]
        json_provider(provider_json(provider)) == Ok::<ProviderView, Seq<char>>(provider) by {
        lemma_provider_round_trip(provider);
    }
    lemma_read_each_written(
        providers.providers,
        |provider: ProviderView| provider_json(provider),
        |item: Json| json_provider(item),
    );
}

} // verus!
