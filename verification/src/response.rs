//! What the answers of the Gemini API hold, and how it is read from their
//! JSON documents.

use vstd::prelude::*;

use crate::json::{
    find, items_view, member, optional_text, read_optional_text, read_required_text,
    read_required_texts, required_text, required_texts, Json, JsonModel,
};
use crate::text::{join, joined, mismatch, mismatch_words, missing, missing_words, read, text_of, views};

verus! {

/// The answer to a request for images.
#[derive(Debug)]
pub struct PredictResponse {
    pub predictions: Vec<PredictPrediction>,
}

/// One image of an answer: its bytes in base64 and its MIME type, as far as
/// the answer gives them.
#[derive(Debug)]
pub struct PredictPrediction {
    pub bytes_base64_encoded: Option<String>,
    pub mime_type: Option<String>,
}

/// The answer to a request for text.
#[derive(Debug)]
pub struct GenerateContentResponse {
    pub candidates: Vec<Candidate>,
}

/// One candidate of an answer: its content, and why it ended.
#[derive(Debug)]
pub struct Candidate {
    pub content: ContentResponse,
    pub finish_reason: Option<String>,
}

/// The content of a candidate: its parts.
#[derive(Debug)]
pub struct ContentResponse {
    pub parts: Vec<PartResponse>,
}

/// One part of a content: its text.
#[derive(Debug)]
pub struct PartResponse {
    pub text: String,
}

/// The description of a place: its ambiance, what is found there, and the
/// keywords that capture it.
#[derive(Debug)]
pub struct PlaceDescription {
    pub ambiance: String,
    pub items: Vec<String>,
    pub keywords: Vec<String>,
}

/// What a prediction holds.
pub struct PredictionModel {
    pub bytes_base64_encoded: Option<Seq<char>>,
    pub mime_type: Option<Seq<char>>,
}

/// What a candidate holds: the texts of its parts, and why it ended.
pub struct CandidateModel {
    pub parts: Seq<Seq<char>>,
    pub finish_reason: Option<Seq<char>>,
}

/// What a place description holds.
pub struct PlaceModel {
    pub ambiance: Seq<char>,
    pub items: Seq<Seq<char>>,
    pub keywords: Seq<Seq<char>>,
}

impl View for PredictPrediction {
    type V = PredictionModel;

    open spec fn view(&self) -> PredictionModel {
        PredictionModel {
            bytes_base64_encoded: text_of(self.bytes_base64_encoded),
            mime_type: text_of(self.mime_type),
        }
    }
}

impl View for PredictResponse {
    type V = Seq<PredictionModel>;

    open spec fn view(&self) -> Seq<PredictionModel> {
        views(self.predictions@)
    }
}

impl View for PartResponse {
    type V = Seq<char>;

    open spec fn view(&self) -> Seq<char> {
        self.text@
    }
}

impl View for ContentResponse {
    type V = Seq<Seq<char>>;

    open spec fn view(&self) -> Seq<Seq<char>> {
        views(self.parts@)
    }
}

impl View for Candidate {
    type V = CandidateModel;

    open spec fn view(&self) -> CandidateModel {
        CandidateModel { parts: self.content@, finish_reason: text_of(self.finish_reason) }
    }
}

impl View for GenerateContentResponse {
    type V = Seq<CandidateModel>;

    open spec fn view(&self) -> Seq<CandidateModel> {
        views(self.candidates@)
    }
}

impl View for PlaceDescription {
    type V = PlaceModel;

    open spec fn view(&self) -> PlaceModel {
        PlaceModel {
            ambiance: self.ambiance@,
            items: self.items.deep_view(),
            keywords: self.keywords.deep_view(),
        }
    }
}

impl PlaceModel {
    /// The description in three lines.
    pub open spec fn text(self) -> Seq<char> {
        "Ambiance: "@ + self.ambiance + "\nItems: "@ + joined(self.items, ", "@) + "\nKeywords: "@
            + joined(self.keywords, ", "@)
    }
}

impl PlaceDescription {
    /// The description in three lines: ambiance, items, keywords.
    pub fn to_text(&self) -> (r: String)
        ensures
            r@ == self@.text(),
    {
        let mut text = "Ambiance: ".to_owned();
        text.append(self.ambiance.as_str());
        text.append("\nItems: ");
        text.append(join(&self.items, ", ").as_str());
        text.append("\nKeywords: ");
        text.append(join(&self.keywords, ", ").as_str());
        text
    }
}

/// The prediction that a JSON document describes: an object whose members
/// `bytesBase64Encoded` and `mimeType` are strings, `null` or missing.
pub open spec fn prediction_of(doc: JsonModel) -> Result<PredictionModel, Seq<char>> {
    match doc {
        JsonModel::Object(members) => match (
            optional_text(members, "bytesBase64Encoded"@),
            optional_text(members, "mimeType"@),
        ) {
            (Ok(bytes), Ok(mime)) => Ok(
                PredictionModel { bytes_base64_encoded: bytes, mime_type: mime },
            ),
            (Err(words), _) => Err(words),
            (_, Err(words)) => Err(words),
        },
        _ => Err(mismatch("prediction"@)),
    }
}

/// The predictions that the items describe; the first item that describes
/// none decides the error.
pub open spec fn prediction_list(items: Seq<JsonModel>) -> Result<Seq<PredictionModel>, Seq<char>>
    decreases items.len(),
{
    if items.len() == 0 {
        Ok(Seq::empty())
    } else {
        match prediction_list(items.drop_last()) {
            Err(words) => Err(words),
            Ok(earlier) => match prediction_of(items.last()) {
                Err(words) => Err(words),
                Ok(one) => Ok(earlier.push(one)),
            },
        }
    }
}

/// The predictions of an answer: an object whose member `predictions`, where
/// it is there, is an array of predictions.
pub open spec fn predictions_of(doc: JsonModel) -> Result<Seq<PredictionModel>, Seq<char>> {
    match doc {
        JsonModel::Object(members) => match member(members, "predictions"@) {
            None => Ok(Seq::empty()),
            Some(JsonModel::Array(items)) => prediction_list(items),
            Some(_) => Err(mismatch("predictions"@)),
        },
        _ => Err(mismatch("response"@)),
    }
}

/// The text of a part: an object with a string member `text`.
pub open spec fn part_of(doc: JsonModel) -> Result<Seq<char>, Seq<char>> {
    match doc {
        JsonModel::Object(members) => required_text(members, "text"@),
        _ => Err(mismatch("part"@)),
    }
}

/// The texts of the parts that the items describe.
pub open spec fn part_list(items: Seq<JsonModel>) -> Result<Seq<Seq<char>>, Seq<char>>
    decreases items.len(),
{
    if items.len() == 0 {
        Ok(Seq::empty())
    } else {
        match part_list(items.drop_last()) {
            Err(words) => Err(words),
            Ok(earlier) => match part_of(items.last()) {
                Err(words) => Err(words),
                Ok(one) => Ok(earlier.push(one)),
            },
        }
    }
}

/// The parts of a content: an object with an array member `parts`.
pub open spec fn content_of(doc: JsonModel) -> Result<Seq<Seq<char>>, Seq<char>> {
    match doc {
        JsonModel::Object(members) => match member(members, "parts"@) {
            None => Err(missing("parts"@)),
            Some(JsonModel::Array(items)) => part_list(items),
            Some(_) => Err(mismatch("parts"@)),
        },
        _ => Err(mismatch("content"@)),
    }
}

/// The candidate that a JSON document describes: an object with a member
/// `content`, and a member `finishReason` that is a string, `null` or
/// missing.
pub open spec fn candidate_of(doc: JsonModel) -> Result<CandidateModel, Seq<char>> {
    match doc {
        JsonModel::Object(members) => match member(members, "content"@) {
            None => Err(missing("content"@)),
            Some(content) => match (content_of(content), optional_text(members, "finishReason"@)) {
                (Ok(parts), Ok(reason)) => Ok(CandidateModel { parts, finish_reason: reason }),
                (Err(words), _) => Err(words),
                (_, Err(words)) => Err(words),
            },
        },
        _ => Err(mismatch("candidate"@)),
    }
}

/// The candidates that the items describe.
pub open spec fn candidate_list(items: Seq<JsonModel>) -> Result<Seq<CandidateModel>, Seq<char>>
    decreases items.len(),
{
    if items.len() == 0 {
        Ok(Seq::empty())
    } else {
        match candidate_list(items.drop_last()) {
            Err(words) => Err(words),
            Ok(earlier) => match candidate_of(items.last()) {
                Err(words) => Err(words),
                Ok(one) => Ok(earlier.push(one)),
            },
        }
    }
}

/// The candidates of an answer: an object whose member `candidates`, where
/// it is there, is an array of candidates.
pub open spec fn candidates_of(doc: JsonModel) -> Result<Seq<CandidateModel>, Seq<char>> {
    match doc {
        JsonModel::Object(members) => match member(members, "candidates"@) {
            None => Ok(Seq::empty()),
            Some(JsonModel::Array(items)) => candidate_list(items),
            Some(_) => Err(mismatch("candidates"@)),
        },
        _ => Err(mismatch("response"@)),
    }
}

/// The place description that a JSON document holds: an object with a
/// string `ambiance` and arrays of strings `items` and `keywords`.
pub open spec fn place_of(doc: JsonModel) -> Result<PlaceModel, Seq<char>> {
    match doc {
        JsonModel::Object(members) => match (
            required_text(members, "ambiance"@),
            required_texts(members, "items"@),
            required_texts(members, "keywords"@),
        ) {
            (Ok(ambiance), Ok(items), Ok(keywords)) => Ok(PlaceModel { ambiance, items, keywords }),
            (Err(words), _, _) => Err(words),
            (_, Err(words), _) => Err(words),
            (_, _, Err(words)) => Err(words),
        },
        _ => Err(mismatch("place description"@)),
    }
}

/// Reads a prediction from a JSON document.
pub fn read_prediction(doc: &Json) -> (r: Result<PredictPrediction, String>)
    ensures
        read(r) == prediction_of(doc@),
{
    let members = match doc.members() {
        Some(members) => members,
        None => {
            return Err(mismatch_words("prediction"));
        },
    };
    let bytes = match read_optional_text(members, "bytesBase64Encoded") {
        Ok(bytes) => bytes,
        Err(words) => {
            return Err(words);
        },
    };
    let mime = match read_optional_text(members, "mimeType") {
        Ok(mime) => mime,
        Err(words) => {
            return Err(words);
        },
    };
    Ok(PredictPrediction { bytes_base64_encoded: bytes, mime_type: mime })
}

/// Reads the predictions of an answer from its JSON document.
pub fn read_predictions(doc: &Json) -> (r: Result<PredictResponse, String>)
    ensures
        read(r) == predictions_of(doc@),
{
    let members = match doc.members() {
        Some(members) => members,
        None => {
            return Err(mismatch_words("response"));
        },
    };
    let items = match find(members, "predictions") {
        None => {
            let response = PredictResponse { predictions: Vec::new() };
            assert(response@ =~= Seq::<PredictionModel>::empty());
            return Ok(response);
        },
        Some(value) => match value.items() {
            Some(items) => items,
            None => {
                return Err(mismatch_words("predictions"));
            },
        },
    };
    let ghost all = items_view(items@);
    let mut predictions: Vec<PredictPrediction> = Vec::new();
    let mut i: usize = 0;
    assert(all.take(0) =~= Seq::<JsonModel>::empty());
    assert(views(predictions@) =~= Seq::empty());
    while i < items.len()
        invariant
            i <= items.len(),
            all == items_view(items@),
            predictions_of(doc@) == prediction_list(all),
            predictions.len() == i,
            prediction_list(all.take(i as int)) == Ok::<Seq<PredictionModel>, Seq<char>>(
                views(predictions@),
            ),
        decreases items.len() - i,
    {
        proof {
            assert(all.take(i + 1).drop_last() =~= all.take(i as int));
            assert(all.take(i + 1).last() == items@[i as int]@);
        }
        match read_prediction(&items[i]) {
            Ok(one) => {
                let ghost before = views(predictions@);
                predictions.push(one);
                assert(views(predictions@) =~= before.push(one@));
            },
            Err(words) => {
                proof {
                    lemma_prediction_list_fail(all, i as int);
                }
                return Err(words);
            },
        }
        i += 1;
    }
    assert(all.take(items.len() as int) =~= all);
    Ok(PredictResponse { predictions })
}

/// Where the items before one describe predictions and that one does not,
/// its error is the error of the whole list.
pub proof fn lemma_prediction_list_fail(items: Seq<JsonModel>, at: int)
    requires
        0 <= at < items.len(),
        prediction_list(items.take(at)) is Ok,
        prediction_of(items[at]) is Err,
    ensures
        prediction_list(items) == Err::<Seq<PredictionModel>, Seq<char>>(
            prediction_of(items[at])->Err_0,
        ),
    decreases items.len(),
{
    if at < items.len() - 1 {
        assert(items.drop_last().take(at) =~= items.take(at));
        lemma_prediction_list_fail(items.drop_last(), at);
    } else {
        assert(items.drop_last() =~= items.take(at));
    }
}

/// Reads the text of a part.
pub fn read_part(doc: &Json) -> (r: Result<PartResponse, String>)
    ensures
        read(r) == part_of(doc@),
{
    match doc.members() {
        Some(members) => match read_required_text(members, "text") {
            Ok(text) => Ok(PartResponse { text }),
            Err(words) => Err(words),
        },
        None => Err(mismatch_words("part")),
    }
}

/// As `lemma_prediction_list_fail`, for parts.
pub proof fn lemma_part_list_fail(items: Seq<JsonModel>, at: int)
    requires
        0 <= at < items.len(),
        part_list(items.take(at)) is Ok,
        part_of(items[at]) is Err,
    ensures
        part_list(items) == Err::<Seq<Seq<char>>, Seq<char>>(part_of(items[at])->Err_0),
    decreases items.len(),
{
    if at < items.len() - 1 {
        assert(items.drop_last().take(at) =~= items.take(at));
        lemma_part_list_fail(items.drop_last(), at);
    } else {
        assert(items.drop_last() =~= items.take(at));
    }
}

/// Reads the parts of a content.
pub fn read_content(doc: &Json) -> (r: Result<ContentResponse, String>)
    ensures
        read(r) == content_of(doc@),
{
    let members = match doc.members() {
        Some(members) => members,
        None => {
            return Err(mismatch_words("content"));
        },
    };
    let items = match find(members, "parts") {
        None => {
            return Err(missing_words("parts"));
        },
        Some(value) => match value.items() {
            Some(items) => items,
            None => {
                return Err(mismatch_words("parts"));
            },
        },
    };
    let ghost all = items_view(items@);
    let mut parts: Vec<PartResponse> = Vec::new();
    let mut i: usize = 0;
    assert(all.take(0) =~= Seq::<JsonModel>::empty());
    assert(views(parts@) =~= Seq::empty());
    while i < items.len()
        invariant
            i <= items.len(),
            all == items_view(items@),
            content_of(doc@) == part_list(all),
            parts.len() == i,
            part_list(all.take(i as int)) == Ok::<Seq<Seq<char>>, Seq<char>>(
                views(parts@),
            ),
        decreases items.len() - i,
    {
        proof {
            assert(all.take(i + 1).drop_last() =~= all.take(i as int));
            assert(all.take(i + 1).last() == items@[i as int]@);
        }
        match read_part(&items[i]) {
            Ok(one) => {
                let ghost before = views(parts@);
                parts.push(one);
                assert(views(parts@) =~= before.push(one@));
            },
            Err(words) => {
                proof {
                    lemma_part_list_fail(all, i as int);
                }
                return Err(words);
            },
        }
        i += 1;
    }
    assert(all.take(items.len() as int) =~= all);
    Ok(ContentResponse { parts })
}

/// Reads a candidate from a JSON document.
pub fn read_candidate(doc: &Json) -> (r: Result<Candidate, String>)
    ensures
        read(r) == candidate_of(doc@),
{
    let members = match doc.members() {
        Some(members) => members,
        None => {
            return Err(mismatch_words("candidate"));
        },
    };
    let content = match find(members, "content") {
        None => {
            return Err(missing_words("content"));
        },
        Some(value) => match read_content(value) {
            Ok(content) => content,
            Err(words) => {
                return Err(words);
            },
        },
    };
    match read_optional_text(members, "finishReason") {
        Ok(reason) => Ok(Candidate { content, finish_reason: reason }),
        Err(words) => Err(words),
    }
}

/// As `lemma_prediction_list_fail`, for candidates.
pub proof fn lemma_candidate_list_fail(items: Seq<JsonModel>, at: int)
    requires
        0 <= at < items.len(),
        candidate_list(items.take(at)) is Ok,
        candidate_of(items[at]) is Err,
    ensures
        candidate_list(items) == Err::<Seq<CandidateModel>, Seq<char>>(
            candidate_of(items[at])->Err_0,
        ),
    decreases items.len(),
{
    if at < items.len() - 1 {
        assert(items.drop_last().take(at) =~= items.take(at));
        lemma_candidate_list_fail(items.drop_last(), at);
    } else {
        assert(items.drop_last() =~= items.take(at));
    }
}

/// Reads the candidates of an answer from its JSON document.
pub fn read_candidates(doc: &Json) -> (r: Result<GenerateContentResponse, String>)
    ensures
        read(r) == candidates_of(doc@),
{
    let members = match doc.members() {
        Some(members) => members,
        None => {
            return Err(mismatch_words("response"));
        },
    };
    let items = match find(members, "candidates") {
        None => {
            let response = GenerateContentResponse { candidates: Vec::new() };
            assert(response@ =~= Seq::<CandidateModel>::empty());
            return Ok(response);
        },
        Some(value) => match value.items() {
            Some(items) => items,
            None => {
                return Err(mismatch_words("candidates"));
            },
        },
    };
    let ghost all = items_view(items@);
    let mut candidates: Vec<Candidate> = Vec::new();
    let mut i: usize = 0;
    assert(all.take(0) =~= Seq::<JsonModel>::empty());
    assert(views(candidates@) =~= Seq::empty());
    while i < items.len()
        invariant
            i <= items.len(),
            all == items_view(items@),
            candidates_of(doc@) == candidate_list(all),
            candidates.len() == i,
            candidate_list(all.take(i as int)) == Ok::<Seq<CandidateModel>, Seq<char>>(
                views(candidates@),
            ),
        decreases items.len() - i,
    {
        proof {
            assert(all.take(i + 1).drop_last() =~= all.take(i as int));
            assert(all.take(i + 1).last() == items@[i as int]@);
        }
        match read_candidate(&items[i]) {
            Ok(one) => {
                let ghost before = views(candidates@);
                candidates.push(one);
                assert(views(candidates@) =~= before.push(one@));
            },
            Err(words) => {
                proof {
                    lemma_candidate_list_fail(all, i as int);
                }
                return Err(words);
            },
        }
        i += 1;
    }
    assert(all.take(items.len() as int) =~= all);
    Ok(GenerateContentResponse { candidates })
}

/// Reads a place description from a JSON document.
pub fn read_place(doc: &Json) -> (r: Result<PlaceDescription, String>)
    ensures
        read(r) == place_of(doc@),
{
    let members = match doc.members() {
        Some(members) => members,
        None => {
            return Err(mismatch_words("place description"));
        },
    };
    let ambiance = match read_required_text(members, "ambiance") {
        Ok(ambiance) => ambiance,
        Err(words) => {
            return Err(words);
        },
    };
    let items = match read_required_texts(members, "items") {
        Ok(items) => items,
        Err(words) => {
            return Err(words);
        },
    };
    let keywords = match read_required_texts(members, "keywords") {
        Ok(keywords) => keywords,
        Err(words) => {
            return Err(words);
        },
    };
    Ok(PlaceDescription { ambiance, items, keywords })
}

} // verus!
