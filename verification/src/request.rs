//! The bodies of the requests to the Gemini API, as JSON documents.

use vstd::prelude::*;

use crate::json::{
    entry, field, items_view, json_number, members_view, number, text_array, text_items, Json,
    JsonModel, Member,
};
use crate::text::text_of;

verus! {

/// The parameters of an image request; the aspect ratio is left out where
/// there is none.
pub open spec fn parameters_json(sample_count: u32, aspect_ratio: Option<Seq<char>>) -> JsonModel {
    match aspect_ratio {
        Some(ratio) => JsonModel::Object(
            seq![
                field("sampleCount"@, JsonModel::Number(json_number(sample_count))),
                field("aspectRatio"@, JsonModel::Text(ratio)),
            ],
        ),
        None => JsonModel::Object(
            seq![field("sampleCount"@, JsonModel::Number(json_number(sample_count)))],
        ),
    }
}

/// The instances of an image request: one, with the prompt.
pub open spec fn instances_json(prompt: Seq<char>) -> JsonModel {
    JsonModel::Array(seq![JsonModel::Object(seq![field("prompt"@, JsonModel::Text(prompt))])])
}

/// The body of an image request: its instances and its parameters.
pub open spec fn predict_request_json(
    prompt: Seq<char>,
    sample_count: u32,
    aspect_ratio: Option<Seq<char>>,
) -> JsonModel {
    JsonModel::Object(
        seq![
            field("instances"@, instances_json(prompt)),
            field("parameters"@, parameters_json(sample_count, aspect_ratio)),
        ],
    )
}

/// The schema that an answer is to follow.
pub open spec fn schema_json(
    schema_type: Seq<char>,
    properties: JsonModel,
    property_ordering: Option<Seq<Seq<char>>>,
) -> JsonModel {
    JsonModel::Object(
        match property_ordering {
            Some(order) => seq![
                field("type"@, JsonModel::Text(schema_type)),
                field("properties"@, properties),
                field("propertyOrdering"@, JsonModel::Array(text_items(order))),
            ],
            None => seq![
                field("type"@, JsonModel::Text(schema_type)),
                field("properties"@, properties),
            ],
        },
    )
}

/// How an answer is to be generated: its MIME type and its schema.
pub open spec fn generation_config_json(response_mime_type: Seq<char>, schema: JsonModel) -> JsonModel {
    JsonModel::Object(
        seq![
            field("responseMimeType"@, JsonModel::Text(response_mime_type)),
            field("responseSchema"@, schema),
        ],
    )
}

/// The body of a text request: one content with one part that holds the
/// text, and the generation config where there is one.
pub open spec fn text_request_json(text: Seq<char>, generation_config: Option<JsonModel>) -> JsonModel {
    let contents = JsonModel::Array(
        seq![
            JsonModel::Object(
                seq![
                    field(
                        "parts"@,
                        JsonModel::Array(
                            seq![JsonModel::Object(seq![field("text"@, JsonModel::Text(text))])],
                        ),
                    ),
                ],
            ),
        ],
    );
    JsonModel::Object(
        match generation_config {
            Some(config) => seq![field("contents"@, contents), field("generationConfig"@, config)],
            None => seq![field("contents"@, contents)],
        },
    )
}

/// The schema of a string.
pub open spec fn string_schema() -> JsonModel {
    JsonModel::Object(seq![field("type"@, JsonModel::Text("STRING"@))])
}

/// The schema of an array of strings.
pub open spec fn string_array_schema() -> JsonModel {
    JsonModel::Object(
        seq![field("type"@, JsonModel::Text("ARRAY"@)), field("items"@, string_schema())],
    )
}

/// The properties of a place description.
pub open spec fn place_properties() -> JsonModel {
    JsonModel::Object(
        seq![
            field("ambiance"@, string_schema()),
            field("items"@, string_array_schema()),
            field("keywords"@, string_array_schema()),
        ],
    )
}

/// The generation config that asks for a place description.
pub open spec fn place_generation_config() -> JsonModel {
    generation_config_json(
        "application/json"@,
        schema_json(
            "OBJECT"@,
            place_properties(),
            Some(seq!["ambiance"@, "items"@, "keywords"@]),
        ),
    )
}

/// The prompt that asks for the description of a place.
pub open spec fn place_prompt(location: Seq<char>) -> Seq<char> {
    "Describe the place called "@ + location
        + ". Provide a general ambiance description, a list of potential items that might be found in a cozy interior view of this place, and a list of keywords that capture the essence of this location."@
}

/// A request for images.
pub struct PredictRequest<'a> {
    pub prompt: &'a str,
    pub sample_count: u32,
    pub aspect_ratio: Option<String>,
}

/// The schema that an answer is to follow.
pub struct ResponseSchema {
    pub schema_type: String,
    pub properties: Json,
    pub property_ordering: Option<Vec<String>>,
}

/// How an answer is to be generated.
pub struct GenerationConfig {
    pub response_mime_type: String,
    pub response_schema: ResponseSchema,
}

/// A request for text.
pub struct TextRequest<'a> {
    pub text: &'a str,
    pub generation_config: Option<GenerationConfig>,
}

/// The JSON object with one member.
fn object_of_one(name: &str, value: Json) -> (tree: Json)
    ensures
        tree@ == JsonModel::Object(seq![field(name@, value@)]),
{
    let mut members: Vec<Member> = Vec::new();
    members.push(entry(name, value));
    assert(members_view(members@) =~= seq![field(name@, value@)]);
    Json::object(members)
}

/// The JSON object with two members.
fn object_of_two(first: &str, first_value: Json, second: &str, second_value: Json) -> (tree: Json)
    ensures
        tree@ == JsonModel::Object(
            seq![field(first@, first_value@), field(second@, second_value@)],
        ),
{
    let mut members: Vec<Member> = Vec::new();
    members.push(entry(first, first_value));
    members.push(entry(second, second_value));
    assert(members_view(members@) =~= seq![
        field(first@, first_value@),
        field(second@, second_value@),
    ]);
    Json::object(members)
}

/// The JSON array with one item.
fn array_of_one(item: Json) -> (tree: Json)
    ensures
        tree@ == JsonModel::Array(seq![item@]),
{
    let mut items: Vec<Json> = Vec::new();
    items.push(item);
    assert(items_view(items@) =~= seq![item@]);
    Json::array(items)
}

impl<'a> PredictRequest<'a> {
    /// The request for `sample_count` images of `prompt`.
    pub fn new(prompt: &'a str, sample_count: u32, aspect_ratio: Option<String>) -> (request: Self)
        ensures
            request.prompt@ == prompt@,
            request.sample_count == sample_count,
            request.aspect_ratio == aspect_ratio,
    {
        PredictRequest { prompt, sample_count, aspect_ratio }
    }

    /// The body of the request.
    pub fn to_json(&self) -> (tree: Json)
        ensures
            tree@ == predict_request_json(
                self.prompt@,
                self.sample_count,
                text_of(self.aspect_ratio),
            ),
    {
        let instances = array_of_one(object_of_one("prompt", Json::text(self.prompt)));
        let parameters = match &self.aspect_ratio {
            Some(ratio) => object_of_two(
                "sampleCount",
                number(self.sample_count),
                "aspectRatio",
                Json::text(ratio.as_str()),
            ),
            None => object_of_one("sampleCount", number(self.sample_count)),
        };
        object_of_two("instances", instances, "parameters", parameters)
    }
}

impl ResponseSchema {
    /// What the schema holds.
    pub open spec fn json(&self) -> JsonModel {
        schema_json(
            self.schema_type@,
            self.properties@,
            match self.property_ordering {
                Some(order) => Some(order.deep_view()),
                None => None,
            },
        )
    }

    /// The schema as JSON. The properties are handed over.
    pub fn into_json(self) -> (tree: Json)
        ensures
            tree@ == self.json(),
    {
        let mut members: Vec<Member> = Vec::new();
        members.push(entry("type", Json::text(self.schema_type.as_str())));
        members.push(entry("properties", self.properties));
        match &self.property_ordering {
            Some(order) => {
                members.push(entry("propertyOrdering", text_array(order)));
                assert(members_view(members@) =~= seq![
                    field("type"@, JsonModel::Text(self.schema_type@)),
                    field("properties"@, self.properties@),
                    field("propertyOrdering"@, JsonModel::Array(text_items(order.deep_view()))),
                ]);
            },
            None => {
                assert(members_view(members@) =~= seq![
                    field("type"@, JsonModel::Text(self.schema_type@)),
                    field("properties"@, self.properties@),
                ]);
            },
        }
        Json::object(members)
    }
}

impl GenerationConfig {
    /// What the config holds.
    pub open spec fn json(&self) -> JsonModel {
        generation_config_json(self.response_mime_type@, self.response_schema.json())
    }

    /// The config as JSON.
    pub fn into_json(self) -> (tree: Json)
        ensures
            tree@ == self.json(),
    {
        object_of_two(
            "responseMimeType",
            Json::text(self.response_mime_type.as_str()),
            "responseSchema",
            self.response_schema.into_json(),
        )
    }
}

impl<'a> TextRequest<'a> {
    /// The request for text on `text`, with no schema for the answer.
    pub fn new(text: &'a str) -> (request: Self)
        ensures
            request.text@ == text@,
            request.generation_config is None,
    {
        TextRequest { text, generation_config: None }
    }

    /// The request for text on `text`, the answer to be generated as the
    /// config says.
    pub fn with_schema(text: &'a str, generation_config: GenerationConfig) -> (request: Self)
        ensures
            request.text@ == text@,
            request.generation_config == Some(generation_config),
    {
        TextRequest { text, generation_config: Some(generation_config) }
    }

    /// What the request holds.
    pub open spec fn json(&self) -> JsonModel {
        text_request_json(
            self.text@,
            match self.generation_config {
                Some(config) => Some(config.json()),
                None => None,
            },
        )
    }

    /// The body of the request.
    pub fn into_json(self) -> (tree: Json)
        ensures
            tree@ == self.json(),
    {
        let part = object_of_one("text", Json::text(self.text));
        let contents = array_of_one(object_of_one("parts", array_of_one(part)));
        match self.generation_config {
            Some(config) => object_of_two(
                "contents",
                contents,
                "generationConfig",
                config.into_json(),
            ),
            None => object_of_one("contents", contents),
        }
    }
}

/// The properties of a place description, as JSON.
pub fn place_properties_json() -> (tree: Json)
    ensures
        tree@ == place_properties(),
{
    let mut members: Vec<Member> = Vec::new();
    members.push(entry("ambiance", object_of_one("type", Json::text("STRING"))));
    members.push(
        entry(
            "items",
            object_of_two(
                "type",
                Json::text("ARRAY"),
                "items",
                object_of_one("type", Json::text("STRING")),
            ),
        ),
    );
    members.push(
        entry(
            "keywords",
            object_of_two(
                "type",
                Json::text("ARRAY"),
                "items",
                object_of_one("type", Json::text("STRING")),
            ),
        ),
    );
    assert(members_view(members@) =~= seq![
        field("ambiance"@, string_schema()),
        field("items"@, string_array_schema()),
        field("keywords"@, string_array_schema()),
    ]);
    Json::object(members)
}

} // verus!
