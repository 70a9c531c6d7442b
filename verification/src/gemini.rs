//! The exchanges with the Gemini API: the request that each call sends and
//! what is made of the answer that comes back.

use vstd::prelude::*;

use crate::json::{json_parsed, json_text, parse, render, stored, Json, JsonModel};
use crate::request::{
    place_generation_config, place_prompt, place_properties_json, predict_request_json,
    text_request_json, GenerationConfig, PredictRequest, ResponseSchema, TextRequest,
};
use crate::response::{
    candidates_of, place_of, predictions_of, read_candidates, read_place, read_predictions,
    CandidateModel, GenerateContentResponse, PlaceDescription, PlaceModel, PredictResponse,
    PredictionModel,
};
use crate::text::{decimal, decimal_text, is_blank, is_blank_text, read};

verus! {

/// The model that images are asked of.
pub const DEFAULT_IMG_MODEL_VERSION: &'static str = "imagen-4.0-generate-001";

/// The model that text is asked of.
pub const DEFAULT_TEXT_MODEL_VERSION: &'static str = "gemini-2.5-flash";

/// How many images one request asks for.
pub const DEFAULT_SAMPLE_COUNT: u32 = 2;

/// The aspect ratio of the images that are asked for.
pub const DEFAULT_ASPECT_RATIO: &'static str = "16:9";

/// Why an exchange with the API came to nothing.
#[derive(Debug)]
pub enum GeminiError {
    MissingApiKey,
    /// The request did not go through, or the answer's status was no
    /// success; the cause, as text.
    Http(String),
    /// The answer is not the JSON that was asked for; the cause, as text.
    JsonParse(String),
}

/// What a `GeminiError` holds.
pub enum GeminiFailure {
    MissingApiKey,
    Http(Seq<char>),
    JsonParse(Seq<char>),
}

impl View for GeminiError {
    type V = GeminiFailure;

    open spec fn view(&self) -> GeminiFailure {
        match self {
            GeminiError::MissingApiKey => GeminiFailure::MissingApiKey,
            GeminiError::Http(words) => GeminiFailure::Http(words@),
            GeminiError::JsonParse(words) => GeminiFailure::JsonParse(words@),
        }
    }
}

impl GeminiFailure {
    /// What the error says, in words.
    pub open spec fn text(self) -> Seq<char> {
        match self {
            GeminiFailure::MissingApiKey => "Gemini API key is missing"@,
            GeminiFailure::Http(words) => words,
            GeminiFailure::JsonParse(words) => "Failed to parse JSON response: "@ + words,
        }
    }
}

impl GeminiError {
    /// What the error says, in words.
    pub fn message(&self) -> (r: String)
        ensures
            r@ == self@.text(),
    {
        match self {
            GeminiError::MissingApiKey => "Gemini API key is missing".to_owned(),
            GeminiError::Http(words) => words.clone(),
            GeminiError::JsonParse(words) => {
                let mut text = "Failed to parse JSON response: ".to_owned();
                text.append(words.as_str());
                text
            },
        }
    }
}

/// What came of a call: the view of the result, or of the error.
pub open spec fn outcome<T: View>(r: Result<T, GeminiError>) -> Result<T::V, GeminiFailure> {
    match r {
        Ok(value) => Ok(value@),
        Err(error) => Err(error@),
    }
}

/// Where images are asked for.
pub open spec fn image_endpoint() -> Seq<char> {
    "https://generativelanguage.googleapis.com/v1beta/models/"@ + DEFAULT_IMG_MODEL_VERSION@
        + ":predict"@
}

/// Where text is asked for.
pub open spec fn text_endpoint() -> Seq<char> {
    "https://generativelanguage.googleapis.com/v1beta/models/"@ + DEFAULT_TEXT_MODEL_VERSION@
        + ":generateContent"@
}

/// The address that images are asked for at.
pub fn image_endpoint_url() -> (r: String)
    ensures
        r@ == image_endpoint(),
{
    let mut url = "https://generativelanguage.googleapis.com/v1beta/models/".to_owned();
    url.append(DEFAULT_IMG_MODEL_VERSION);
    url.append(":predict");
    url
}

/// The address that text is asked for at.
pub fn text_endpoint_url() -> (r: String)
    ensures
        r@ == text_endpoint(),
{
    let mut url = "https://generativelanguage.googleapis.com/v1beta/models/".to_owned();
    url.append(DEFAULT_TEXT_MODEL_VERSION);
    url.append(":generateContent");
    url
}

/// A request that is ready to be sent: a POST to `url` with the header
/// `x-goog-api-key` set to `api_key` and the JSON text `body`.
#[derive(Debug)]
pub struct ApiRequest {
    pub url: String,
    pub api_key: String,
    pub body: String,
}

/// What a request holds.
pub struct ApiRequestModel {
    pub url: Seq<char>,
    pub api_key: Seq<char>,
    pub body: Seq<char>,
}

impl View for ApiRequest {
    type V = ApiRequestModel;

    open spec fn view(&self) -> ApiRequestModel {
        ApiRequestModel { url: self.url@, api_key: self.api_key@, body: self.body@ }
    }
}

/// The request for `body` at `url`, its body being the text of what is kept
/// of the document, or the refusal of a blank key.
pub open spec fn request(api_key: Seq<char>, url: Seq<char>, body: JsonModel) -> Result<
    ApiRequestModel,
    GeminiFailure,
> {
    if is_blank(api_key) {
        Err(GeminiFailure::MissingApiKey)
    } else {
        Ok(ApiRequestModel { url, api_key, body: json_text(stored(body)) })
    }
}

/// The request that asks for images of `prompt`: `DEFAULT_SAMPLE_COUNT` of
/// them, in `DEFAULT_ASPECT_RATIO`. A blank key is refused.
pub fn generate_image(api_key: &str, prompt: &str) -> (r: Result<ApiRequest, GeminiError>)
    ensures
        outcome(r) == request(
            api_key@,
            image_endpoint(),
            predict_request_json(prompt@, DEFAULT_SAMPLE_COUNT, Some(DEFAULT_ASPECT_RATIO@)),
        ),
{
    if is_blank_text(api_key) {
        return Err(GeminiError::MissingApiKey);
    }
    let request_body = PredictRequest::new(
        prompt,
        DEFAULT_SAMPLE_COUNT,
        Some(DEFAULT_ASPECT_RATIO.to_owned()),
    );
    Ok(
        ApiRequest {
            url: image_endpoint_url(),
            api_key: api_key.to_owned(),
            body: render(&request_body.to_json()),
        },
    )
}

/// The request that asks for text on `prompt`. A blank key is refused.
pub fn generate_text(api_key: &str, prompt: &str) -> (r: Result<ApiRequest, GeminiError>)
    ensures
        outcome(r) == request(api_key@, text_endpoint(), text_request_json(prompt@, None)),
{
    if is_blank_text(api_key) {
        return Err(GeminiError::MissingApiKey);
    }
    let request_body = TextRequest::new(prompt);
    Ok(
        ApiRequest {
            url: text_endpoint_url(),
            api_key: api_key.to_owned(),
            body: render(&request_body.into_json()),
        },
    )
}

/// The request that asks for the description of a place, as JSON that
/// follows the schema of a place description. A blank key is refused.
pub fn generate_place_description(location: &str, api_key: &str) -> (r: Result<
    ApiRequest,
    GeminiError,
>)
    ensures
        outcome(r) == request(
            api_key@,
            text_endpoint(),
            text_request_json(place_prompt(location@), Some(place_generation_config())),
        ),
{
    if is_blank_text(api_key) {
        return Err(GeminiError::MissingApiKey);
    }
    let mut prompt = "Describe the place called ".to_owned();
    prompt.append(location);
    prompt.append(
        ". Provide a general ambiance description, a list of potential items that might be found in a cozy interior view of this place, and a list of keywords that capture the essence of this location.",
    );
    let mut order: Vec<String> = Vec::new();
    order.push("ambiance".to_owned());
    order.push("items".to_owned());
    order.push("keywords".to_owned());
    assert(order.deep_view() =~= seq!["ambiance"@, "items"@, "keywords"@]);
    let generation_config = GenerationConfig {
        response_mime_type: "application/json".to_owned(),
        response_schema: ResponseSchema {
            schema_type: "OBJECT".to_owned(),
            properties: place_properties_json(),
            property_ordering: Some(order),
        },
    };
    let request_body = TextRequest::with_schema(prompt.as_str(), generation_config);
    Ok(
        ApiRequest {
            url: text_endpoint_url(),
            api_key: api_key.to_owned(),
            body: render(&request_body.into_json()),
        },
    )
}

/// The statuses that stand for success.
pub open spec fn is_success(status: u16) -> bool {
    200 <= status && status < 300
}

/// The words for a status that stands for no success.
pub open spec fn status_words(status: u16) -> Seq<char> {
    "HTTP status "@ + decimal(status as nat)
}

/// What an answer gives: nothing but an HTTP error where the status is no
/// success; otherwise what was read from its body, a failure to read being
/// a parse error.
pub open spec fn answer<T>(status: u16, content: Result<T, Seq<char>>) -> Result<T, GeminiFailure> {
    if !is_success(status) {
        Err(GeminiFailure::Http(status_words(status)))
    } else {
        match content {
            Ok(value) => Ok(value),
            Err(words) => Err(GeminiFailure::JsonParse(words)),
        }
    }
}

/// The predictions in a body that was parsed.
pub open spec fn predictions_in(parsed: Result<JsonModel, Seq<char>>) -> Result<
    Seq<PredictionModel>,
    Seq<char>,
> {
    match parsed {
        Ok(doc) => predictions_of(doc),
        Err(words) => Err(words),
    }
}

/// The candidates in a body that was parsed.
pub open spec fn candidates_in(parsed: Result<JsonModel, Seq<char>>) -> Result<
    Seq<CandidateModel>,
    Seq<char>,
> {
    match parsed {
        Ok(doc) => candidates_of(doc),
        Err(words) => Err(words),
    }
}

/// The place description in a text that was parsed.
pub open spec fn place_in(parsed: Result<JsonModel, Seq<char>>) -> Result<PlaceModel, Seq<char>> {
    match parsed {
        Ok(doc) => place_of(doc),
        Err(words) => Err(words),
    }
}

/// The text that is to hold the place description: the first part of the
/// first candidate, or an empty object where there is none.
pub open spec fn first_text(candidates: Seq<CandidateModel>) -> Seq<char> {
    if candidates.len() > 0 && candidates[0].parts.len() > 0 {
        candidates[0].parts[0]
    } else {
        "{}"@
    }
}

/// The place description that candidates give: what their first text holds.
pub open spec fn place_from(candidates: Result<Seq<CandidateModel>, Seq<char>>) -> Result<
    PlaceModel,
    Seq<char>,
> {
    match candidates {
        Ok(list) => place_in(json_parsed(first_text(list))),
        Err(words) => Err(words),
    }
}

/// The HTTP error for a status that stands for no success.
pub fn check_status(status: u16) -> (r: Result<(), GeminiError>)
    ensures
        match r {
            Ok(_) => is_success(status),
            Err(error) => !is_success(status) && error@ == GeminiFailure::Http(
                status_words(status),
            ),
        },
{
    if 200 <= status && status < 300 {
        Ok(())
    } else {
        let mut words = "HTTP status ".to_owned();
        words.append(decimal_text(status as u128).as_str());
        Err(GeminiError::Http(words))
    }
}

/// The predictions of an answer whose body was parsed already.
pub fn predictions_from_document(status: u16, parsed: Result<Json, String>) -> (r: Result<
    PredictResponse,
    GeminiError,
>)
    ensures
        outcome(r) == answer(status, predictions_in(read(parsed))),
{
    if let Err(error) = check_status(status) {
        return Err(error);
    }
    match parsed {
        Ok(doc) => match read_predictions(&doc) {
            Ok(response) => Ok(response),
            Err(words) => Err(GeminiError::JsonParse(words)),
        },
        Err(words) => Err(GeminiError::JsonParse(words)),
    }
}

/// The predictions of the answer to an image request.
pub fn predict_response(status: u16, body: &str) -> (r: Result<PredictResponse, GeminiError>)
    ensures
        outcome(r) == answer(status, predictions_in(json_parsed(body@))),
{
    if let Err(error) = check_status(status) {
        return Err(error);
    }
    predictions_from_document(status, parse(body))
}

/// The candidates of an answer whose body was parsed already.
pub fn candidates_from_document(status: u16, parsed: Result<Json, String>) -> (r: Result<
    GenerateContentResponse,
    GeminiError,
>)
    ensures
        outcome(r) == answer(status, candidates_in(read(parsed))),
{
    if let Err(error) = check_status(status) {
        return Err(error);
    }
    match parsed {
        Ok(doc) => match read_candidates(&doc) {
            Ok(response) => Ok(response),
            Err(words) => Err(GeminiError::JsonParse(words)),
        },
        Err(words) => Err(GeminiError::JsonParse(words)),
    }
}

/// The candidates of the answer to a text request.
pub fn generate_content_response(status: u16, body: &str) -> (r: Result<
    GenerateContentResponse,
    GeminiError,
>)
    ensures
        outcome(r) == answer(status, candidates_in(json_parsed(body@))),
{
    if let Err(error) = check_status(status) {
        return Err(error);
    }
    candidates_from_document(status, parse(body))
}

/// The text that is to hold the place description.
pub fn place_description_text(response: &GenerateContentResponse) -> (r: &str)
    ensures
        r@ == first_text(response@),
{
    if response.candidates.len() > 0 && response.candidates[0].content.parts.len() > 0 {
        response.candidates[0].content.parts[0].text.as_str()
    } else {
        "{}"
    }
}

/// The place description in a text that was parsed already.
pub fn place_from_document(parsed: Result<Json, String>) -> (r: Result<
    PlaceDescription,
    GeminiError,
>)
    ensures
        match r {
            Ok(place) => place_in(read(parsed)) == Ok::<PlaceModel, Seq<char>>(place@),
            Err(error) => place_in(read(parsed)) is Err && error@ == GeminiFailure::JsonParse(
                place_in(read(parsed))->Err_0,
            ),
        },
{
    match parsed {
        Ok(doc) => match read_place(&doc) {
            Ok(place) => Ok(place),
            Err(words) => Err(GeminiError::JsonParse(words)),
        },
        Err(words) => Err(GeminiError::JsonParse(words)),
    }
}

/// The place description in the answer to a request for one: what the first
/// text of its candidates holds.
pub fn place_description_response(status: u16, body: &str) -> (r: Result<
    PlaceDescription,
    GeminiError,
>)
    ensures
        outcome(r) == answer(status, place_from(candidates_in(json_parsed(body@)))),
{
    let response = match generate_content_response(status, body) {
        Ok(response) => response,
        Err(error) => {
            return Err(error);
        },
    };
    place_from_document(parse(place_description_text(&response)))
}

} // verus!
