use mawaku::gemini::{
    check_status, generate_content_response, generate_image, generate_place_description,
    generate_text, image_endpoint_url, place_description_response, place_description_text,
    place_from_document, predict_response, text_endpoint_url, GeminiError,
    DEFAULT_ASPECT_RATIO, DEFAULT_SAMPLE_COUNT,
};
use mawaku::prompt::{craft_prompt, normalized};
use mawaku::request::{GenerationConfig, PredictRequest, ResponseSchema, TextRequest};
use mawaku::response::PlaceDescription;
use mawaku::json::{parse, render};
use serde_json::Value;

fn object(members: Vec<(&str, Value)>) -> Value {
    let mut map = serde_json::Map::new();
    for (name, value) in members {
        map.insert(name.to_string(), value);
    }
    Value::Object(map)
}

fn text(value: &str) -> Value {
    Value::String(value.to_string())
}

fn place_schema() -> Value {
    let strings = object(vec![
        ("type", text("ARRAY")),
        ("items", object(vec![("type", text("STRING"))])),
    ]);
    object(vec![
        ("ambiance", object(vec![("type", text("STRING"))])),
        ("items", strings.clone()),
        ("keywords", strings),
    ])
}

#[test]
fn serialize_request_matches_expected_shape() {
    let request = PredictRequest::new("A cozy home office", DEFAULT_SAMPLE_COUNT, None);
    let value: Value =
        serde_json::from_str(&render(&request.to_json())).expect("serialize request");

    let expected = object(vec![
        (
            "instances",
            Value::Array(vec![object(vec![("prompt", text("A cozy home office"))])]),
        ),
        (
            "parameters",
            object(vec![("sampleCount", Value::from(DEFAULT_SAMPLE_COUNT))]),
        ),
    ]);

    assert_eq!(value, expected);
}

#[test]
fn craft_prompt_builds_contextual_description() {
    let prompt = craft_prompt(
        "Base instructions.",
        "Lisbon, Portugal",
        Some("spring"),
        Some("golden hour"),
    );

    assert!(prompt.contains("Base instructions."));
    assert!(prompt.contains("Lisbon, Portugal"));
    assert!(prompt.contains("spring"));
    assert!(prompt.contains("golden hour"));
}

#[test]
fn craft_prompt_ignores_empty_inputs() {
    let prompt = craft_prompt("  ", "   ", Some("  "), Some(""));
    assert!(prompt.is_empty());
}

#[test]
fn empty_api_key_is_rejected() {
    let error = generate_image("   ", "workspace").expect_err("missing key");
    assert!(matches!(error, GeminiError::MissingApiKey));
}

#[test]
fn endpoint_uses_defaults() {
    let expected =
        "https://generativelanguage.googleapis.com/v1beta/models/imagen-4.0-generate-001:predict";
    assert_eq!(image_endpoint_url(), expected);
}

#[test]
fn parses_prediction_payload_with_base64() {
    let json = r#"
    {
        "predictions": [
            {
                "bytesBase64Encoded": "aGVsbG8=",
                "mimeType": "image/png"
            }
        ]
    }
    "#;

    let response = predict_response(200, json).expect("parse example response");
    assert_eq!(response.predictions.len(), 1);

    let prediction = &response.predictions[0];
    assert_eq!(prediction.bytes_base64_encoded.as_deref(), Some("aGVsbG8="));
    assert_eq!(prediction.mime_type.as_deref(), Some("image/png"));
}

#[test]
fn text_request_with_schema_serializes_correctly() {
    let schema_properties = parse(&place_schema().to_string()).expect("schema is JSON");

    let generation_config = GenerationConfig {
        response_mime_type: "application/json".to_string(),
        response_schema: ResponseSchema {
            schema_type: "OBJECT".to_string(),
            properties: schema_properties,
            property_ordering: Some(vec![
                "ambiance".to_string(),
                "items".to_string(),
                "keywords".to_string(),
            ]),
        },
    };

    let request = TextRequest::with_schema("Test prompt", generation_config);
    let value: Value =
        serde_json::from_str(&render(&request.into_json())).expect("serialize request");

    assert!(value["contents"].is_array());
    assert_eq!(value["contents"][0]["parts"][0]["text"], "Test prompt");
    assert_eq!(
        value["generationConfig"]["responseMimeType"],
        "application/json"
    );
    assert_eq!(
        value["generationConfig"]["responseSchema"]["type"],
        "OBJECT"
    );
    assert!(value["generationConfig"]["responseSchema"]["properties"]["ambiance"].is_object());
}

#[test]
fn place_description_parses_from_json() {
    let json = r#"
    {
        "ambiance": "Warm and inviting",
        "items": ["wooden chair", "bookshelf", "plant"],
        "keywords": ["cozy", "rustic", "natural"]
    }
    "#;

    let description: PlaceDescription =
        place_from_document(parse(json)).expect("parse place description");
    assert_eq!(description.ambiance, "Warm and inviting");
    assert_eq!(description.items.len(), 3);
    assert_eq!(description.keywords.len(), 3);
    assert!(description.items.contains(&"wooden chair".to_string()));
    assert!(description.keywords.contains(&"cozy".to_string()));
}

#[test]
fn place_description_displays_formatted() {
    let description = PlaceDescription {
        ambiance: "Warm and inviting".to_string(),
        items: vec!["chair".to_string(), "table".to_string()],
        keywords: vec!["cozy".to_string(), "rustic".to_string()],
    };

    let formatted = description.to_text();
    assert!(formatted.contains("Ambiance: Warm and inviting"));
    assert!(formatted.contains("Items: chair, table"));
    assert!(formatted.contains("Keywords: cozy, rustic"));
}

#[test]
fn place_description_text_has_three_lines() {
    let description = PlaceDescription {
        ambiance: "Calm".to_string(),
        items: vec!["lamp".to_string()],
        keywords: Vec::new(),
    };
    assert_eq!(description.to_text(), "Ambiance: Calm\nItems: lamp\nKeywords: ");
}

#[test]
fn craft_prompt_with_base_alone_is_the_trimmed_base() {
    assert_eq!(craft_prompt("  Base.  \n", "", None, None), "Base.");
    assert_eq!(craft_prompt("", "", None, None), "");
    assert_eq!(craft_prompt("  ", "", None, None), "");
}

#[test]
fn craft_prompt_joins_segments_with_single_spaces() {
    let prompt = craft_prompt(" Base. ", " Kyoto ", Some(" autumn "), Some("\tdawn"));
    assert_eq!(
        prompt,
        "Base. Set the scene in Kyoto and showcase the atmosphere from a cosy, lived-in interior perspective. It is autumn. Capture the lighting of dawn."
    );
    assert_eq!(
        craft_prompt("", "Kyoto", None, Some("dusk")),
        "Set the scene in Kyoto and showcase the atmosphere from a cosy, lived-in interior perspective. Capture the lighting of dusk."
    );
    assert_eq!(craft_prompt("Base", "", Some("winter"), None), "Base It is winter.");
}

#[test]
fn normalized_trims_or_gives_none() {
    assert_eq!(normalized("  x y  "), Some("x y"));
    assert_eq!(normalized(" \n\t"), None);
    assert_eq!(normalized(""), None);
}

#[test]
fn text_endpoint_names_the_text_model() {
    assert_eq!(
        text_endpoint_url(),
        "https://generativelanguage.googleapis.com/v1beta/models/gemini-2.5-flash:generateContent"
    );
}

#[test]
fn generate_image_prepares_the_documented_request() {
    let request = generate_image(" key-1 ", "A quiet room").expect("key is there");
    assert_eq!(request.url, image_endpoint_url());
    assert_eq!(request.api_key, " key-1 ");
    let body: Value = serde_json::from_str(&request.body).expect("body is JSON");
    let expected = object(vec![
        (
            "instances",
            Value::Array(vec![object(vec![("prompt", text("A quiet room"))])]),
        ),
        (
            "parameters",
            object(vec![
                ("sampleCount", Value::from(2u32)),
                ("aspectRatio", text("16:9")),
            ]),
        ),
    ]);
    assert_eq!(body, expected);
    assert_eq!(DEFAULT_ASPECT_RATIO, "16:9");
    assert_eq!(DEFAULT_SAMPLE_COUNT, 2);
}

#[test]
fn generate_text_prepares_the_documented_request() {
    let request = generate_text("key", "Say \"hi\"").expect("key is there");
    assert_eq!(request.url, text_endpoint_url());
    assert_eq!(request.api_key, "key");
    let body: Value = serde_json::from_str(&request.body).expect("body is JSON");
    let expected = object(vec![(
        "contents",
        Value::Array(vec![object(vec![(
            "parts",
            Value::Array(vec![object(vec![("text", text("Say \"hi\""))])]),
        )])]),
    )]);
    assert_eq!(body, expected);
}

#[test]
fn generate_place_description_asks_for_the_schema() {
    let request = generate_place_description("Hakone, Japan", "key").expect("key is there");
    assert_eq!(request.url, text_endpoint_url());
    let body: Value = serde_json::from_str(&request.body).expect("body is JSON");
    let prompt = "Describe the place called Hakone, Japan. Provide a general ambiance description, a list of potential items that might be found in a cozy interior view of this place, and a list of keywords that capture the essence of this location.";
    let expected = object(vec![
        (
            "contents",
            Value::Array(vec![object(vec![(
                "parts",
                Value::Array(vec![object(vec![("text", text(prompt))])]),
            )])]),
        ),
        (
            "generationConfig",
            object(vec![
                ("responseMimeType", text("application/json")),
                (
                    "responseSchema",
                    object(vec![
                        ("type", text("OBJECT")),
                        ("properties", place_schema()),
                        (
                            "propertyOrdering",
                            Value::Array(vec![text("ambiance"), text("items"), text("keywords")]),
                        ),
                    ]),
                ),
            ]),
        ),
    ]);
    assert_eq!(body, expected);
}

#[test]
fn blank_keys_are_refused_by_every_request() {
    assert!(matches!(generate_text("", "x"), Err(GeminiError::MissingApiKey)));
    assert!(matches!(generate_text(" \t", "x"), Err(GeminiError::MissingApiKey)));
    assert!(matches!(
        generate_place_description("Rome", "\n"),
        Err(GeminiError::MissingApiKey)
    ));
    assert!(matches!(generate_image("", "x"), Err(GeminiError::MissingApiKey)));
}

#[test]
fn statuses_outside_the_two_hundreds_are_http_errors() {
    assert!(check_status(200).is_ok());
    assert!(check_status(299).is_ok());
    for status in [199u16, 300, 404, 500] {
        match check_status(status) {
            Err(GeminiError::Http(words)) => assert_eq!(words, format!("HTTP status {status}")),
            other => panic!("unexpected outcome {other:?}"),
        }
    }
    match predict_response(503, "{\"predictions\": []}") {
        Err(GeminiError::Http(words)) => assert_eq!(words, "HTTP status 503"),
        other => panic!("unexpected outcome {other:?}"),
    }
}

#[test]
fn malformed_bodies_are_parse_errors() {
    assert!(matches!(predict_response(200, "{"), Err(GeminiError::JsonParse(_))));
    assert!(matches!(predict_response(200, "[]"), Err(GeminiError::JsonParse(_))));
    assert!(matches!(
        predict_response(200, "{\"predictions\": 3}"),
        Err(GeminiError::JsonParse(_))
    ));
    match predict_response(200, "{\"predictions\": [{\"mimeType\": 7}]}") {
        Err(GeminiError::JsonParse(words)) => assert_eq!(words, "invalid type: mimeType"),
        other => panic!("unexpected outcome {other:?}"),
    }
    match generate_content_response(200, "{\"candidates\": [{}]}") {
        Err(GeminiError::JsonParse(words)) => assert_eq!(words, "missing field: content"),
        other => panic!("unexpected outcome {other:?}"),
    }
    match generate_content_response(200, "{\"candidates\": [{\"content\": {\"parts\": [{}]}}]}") {
        Err(GeminiError::JsonParse(words)) => assert_eq!(words, "missing field: text"),
        other => panic!("unexpected outcome {other:?}"),
    }
}

#[test]
fn predictions_may_lack_fields_or_be_missing() {
    let response = predict_response(200, "{}").expect("no predictions is fine");
    assert!(response.predictions.is_empty());
    let response = predict_response(
        200,
        "{\"predictions\": [{}, {\"bytesBase64Encoded\": null, \"mimeType\": \"image/jpeg\"}], \"more\": 1}",
    )
    .expect("fields are optional");
    assert_eq!(response.predictions.len(), 2);
    assert_eq!(response.predictions[0].bytes_base64_encoded, None);
    assert_eq!(response.predictions[0].mime_type, None);
    assert_eq!(response.predictions[1].bytes_base64_encoded, None);
    assert_eq!(response.predictions[1].mime_type.as_deref(), Some("image/jpeg"));
}

#[test]
fn candidates_carry_parts_and_finish_reason() {
    let body = r#"{"candidates": [
        {"content": {"parts": [{"text": "one"}, {"text": "two"}]}, "finishReason": "STOP"},
        {"content": {"parts": []}}
    ]}"#;
    let response = generate_content_response(200, body).expect("body is as documented");
    assert_eq!(response.candidates.len(), 2);
    assert_eq!(response.candidates[0].content.parts.len(), 2);
    assert_eq!(response.candidates[0].content.parts[1].text, "two");
    assert_eq!(response.candidates[0].finish_reason.as_deref(), Some("STOP"));
    assert!(response.candidates[1].content.parts.is_empty());
    assert_eq!(response.candidates[1].finish_reason, None);
    assert_eq!(place_description_text(&response), "one");
    let empty = generate_content_response(200, "{}").expect("no candidates is fine");
    assert_eq!(place_description_text(&empty), "{}");
}

#[test]
fn place_description_is_read_from_the_first_text() {
    let inner = r#"{"ambiance": "Misty", "items": ["kettle"], "keywords": ["onsen", "cedar"]}"#;
    let body = object(vec![(
        "candidates",
        Value::Array(vec![object(vec![(
            "content",
            object(vec![(
                "parts",
                Value::Array(vec![object(vec![("text", text(inner))])]),
            )]),
        )])]),
    )])
    .to_string();
    let place = place_description_response(200, &body).expect("description is there");
    assert_eq!(place.ambiance, "Misty");
    assert_eq!(place.items, vec!["kettle".to_string()]);
    assert_eq!(place.keywords, vec!["onsen".to_string(), "cedar".to_string()]);
}

#[test]
fn place_description_failures_are_told_apart() {
    match place_description_response(200, "{}") {
        Err(GeminiError::JsonParse(words)) => assert_eq!(words, "missing field: ambiance"),
        other => panic!("unexpected outcome {other:?}"),
    }
    assert!(matches!(
        place_description_response(401, "{}"),
        Err(GeminiError::Http(_))
    ));
    let body = r#"{"candidates": [{"content": {"parts": [{"text": "not json"}]}}]}"#;
    assert!(matches!(
        place_description_response(200, body),
        Err(GeminiError::JsonParse(_))
    ));
    let body = r#"{"candidates": [{"content": {"parts": [{"text": "{\"ambiance\": \"a\", \"items\": [1], \"keywords\": []}"}]}}]}"#;
    match place_description_response(200, body) {
        Err(GeminiError::JsonParse(words)) => assert_eq!(words, "invalid type: items"),
        other => panic!("unexpected outcome {other:?}"),
    }
}

#[test]
fn gemini_errors_say_what_went_wrong() {
    assert_eq!(GeminiError::MissingApiKey.message(), "Gemini API key is missing");
    assert_eq!(GeminiError::Http("timed out".to_string()).message(), "timed out");
    assert_eq!(
        GeminiError::JsonParse("eof".to_string()).message(),
        "Failed to parse JSON response: eof"
    );
}
