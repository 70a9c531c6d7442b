//! JSON documents as plain trees, read and written by `serde_json`.

use vstd::prelude::*;

use crate::text::{mismatch, mismatch_words, missing, missing_words, read, same_text, text_of};

verus! {

/// `serde_json::Value`, carried as it is.
#[verifier::external_type_specification]
#[verifier::external_body]
pub struct ExValue(serde_json::Value);

/// `serde_json::Number`, carried as it is.
#[verifier::external_type_specification]
#[verifier::external_body]
pub struct ExNumber(serde_json::Number);

/// A member of a JSON object.
#[derive(Debug)]
pub struct Member {
    pub name: String,
    pub value: Json,
}

/// A JSON document. An object lists its members in the order in which
/// `serde_json` walks them.
#[derive(Debug)]
pub enum Json {
    Null,
    Bool(bool),
    Number(serde_json::Number),
    Text(String),
    Array(Vec<Json>),
    Object(Vec<Member>),
}

/// What a member of a JSON object holds.
#[verifier::ext_equal]
pub struct MemberModel {
    pub name: Seq<char>,
    pub value: JsonModel,
}

/// What a JSON document holds.
#[verifier::ext_equal]
pub enum JsonModel {
    Null,
    Bool(bool),
    Number(serde_json::Number),
    Text(Seq<char>),
    Array(Seq<JsonModel>),
    Object(Seq<MemberModel>),
}

impl View for Json {
    type V = JsonModel;

    open spec fn view(&self) -> JsonModel
        decreases self,
    {
        match self {
            Json::Null => JsonModel::Null,
            Json::Bool(b) => JsonModel::Bool(*b),
            Json::Number(n) => JsonModel::Number(*n),
            Json::Text(t) => JsonModel::Text(t@),
            Json::Object(members) => JsonModel::Object(
                Seq::new(
                    members@.len(),
                    |i: int|
                        if 0 <= i < members@.len() {
                            MemberModel { name: members@[i].name@, value: members@[i].value.view() }
                        } else {
                            MemberModel { name: Seq::empty(), value: JsonModel::Null }
                        },
                ),
            ),
            Json::Array(items) => JsonModel::Array(
                Seq::new(
                    items@.len(),
                    |i: int|
                        if 0 <= i < items@.len() {
                            items@[i].view()
                        } else {
                            JsonModel::Null
                        },
                ),
            ),
        }
    }
}

/// What a `serde_json::Value` holds.
pub uninterp spec fn value_model(value: serde_json::Value) -> JsonModel;

/// What `serde_json` reads from a text: the document, or the words of its
/// error.
pub uninterp spec fn json_parsed(text: Seq<char>) -> Result<JsonModel, Seq<char>>;

/// What a `serde_json::Value` keeps of a document it is made from: its map
/// holds the members of an object in the order of their names, and of
/// members with one name the last.
pub uninterp spec fn stored(document: JsonModel) -> JsonModel;

/// The compact text that `serde_json` writes for a document.
pub uninterp spec fn json_text(document: JsonModel) -> Seq<char>;

/// The JSON number that `serde_json` makes of an unsigned integer.
pub uninterp spec fn json_number(n: u32) -> serde_json::Number;

/// `serde_json::from_str` for a `Value`: what it returns is a function of
/// the text alone, the value on success and otherwise the error, of which
/// the words are kept.
#[verifier::external_body]
fn value_from_str(text: &str) -> (r: Result<serde_json::Value, String>)
    ensures
        match r {
            Ok(value) => json_parsed(text@) == Ok::<JsonModel, Seq<char>>(value_model(value)),
            Err(words) => json_parsed(text@) == Err::<JsonModel, Seq<char>>(words@),
        },
{
    serde_json::from_str::<serde_json::Value>(text).map_err(|error| error.to_string())
}

/// Takes a `serde_json::Value` apart, variant by variant: the tree holds
/// what the value holds.
#[verifier::external_body]
fn tree_of_value(value: &serde_json::Value) -> (tree: Json)
    ensures
        tree@ == value_model(*value),
{
    match value {
        serde_json::Value::Null => Json::Null,
        serde_json::Value::Bool(b) => Json::Bool(*b),
        serde_json::Value::Number(n) => Json::Number(n.clone()),
        serde_json::Value::String(t) => Json::Text(t.clone()),
        serde_json::Value::Array(items) => Json::Array(items.iter().map(tree_of_value).collect()),
        serde_json::Value::Object(members) => Json::Object(
            members.iter().map(|(k, v)| Member { name: k.clone(), value: tree_of_value(v) }).collect(),
        ),
    }
}

/// Puts a `serde_json::Value` together, variant by variant, the members of
/// an object by collecting them into a `serde_json::Map`: the value holds
/// what is kept of the tree.
#[verifier::external_body]
fn value_of_tree(tree: &Json) -> (value: serde_json::Value)
    ensures
        value_model(value) == stored(tree@),
{
    match tree {
        Json::Null => serde_json::Value::Null,
        Json::Bool(b) => serde_json::Value::Bool(*b),
        Json::Number(n) => serde_json::Value::Number(n.clone()),
        Json::Text(t) => serde_json::Value::String(t.clone()),
        Json::Array(items) => serde_json::Value::Array(items.iter().map(value_of_tree).collect()),
        Json::Object(members) => serde_json::Value::Object(
            members.iter().map(|m| (m.name.clone(), value_of_tree(&m.value))).collect(),
        ),
    }
}

/// `Display` of `serde_json::Value`: the compact JSON text of the value.
#[verifier::external_body]
fn value_to_string(value: &serde_json::Value) -> (text: String)
    ensures
        text@ == json_text(value_model(*value)),
{
    value.to_string()
}

/// `serde_json::Number::from` for a `u32`.
#[verifier::external_body]
fn number_from(n: u32) -> (number: serde_json::Number)
    ensures
        number == json_number(n),
{
    serde_json::Number::from(n)
}

/// Reads a JSON document.
pub fn parse(text: &str) -> (r: Result<Json, String>)
    ensures
        match r {
            Ok(tree) => json_parsed(text@) == Ok::<JsonModel, Seq<char>>(tree@),
            Err(words) => json_parsed(text@) == Err::<JsonModel, Seq<char>>(words@),
        },
{
    match value_from_str(text) {
        Ok(value) => Ok(tree_of_value(&value)),
        Err(words) => Err(words),
    }
}

/// Writes a JSON document as compact text.
pub fn render(tree: &Json) -> (text: String)
    ensures
        text@ == json_text(stored(tree@)),
{
    let value = value_of_tree(tree);
    value_to_string(&value)
}

/// The JSON number for `n`.
pub fn number(n: u32) -> (tree: Json)
    ensures
        tree@ == JsonModel::Number(json_number(n)),
{
    Json::Number(number_from(n))
}

/// What the items of an array hold.
pub open spec fn items_view(items: Seq<Json>) -> Seq<JsonModel> {
    Seq::new(items.len(), |i: int| items[i]@)
}

/// What the members of an object hold.
pub open spec fn members_view(members: Seq<Member>) -> Seq<MemberModel> {
    Seq::new(
        members.len(),
        |i: int| MemberModel { name: members[i].name@, value: members[i].value@ },
    )
}

/// The member of that name and value.
pub open spec fn field(name: Seq<char>, value: JsonModel) -> MemberModel {
    MemberModel { name, value }
}

/// The JSON strings that hold the texts.
pub open spec fn text_items(texts: Seq<Seq<char>>) -> Seq<JsonModel> {
    Seq::new(texts.len(), |i: int| JsonModel::Text(texts[i]))
}

/// The text of an optional member: a missing member and `null` give none.
pub open spec fn optional_text(members: Seq<MemberModel>, name: Seq<char>) -> Result<
    Option<Seq<char>>,
    Seq<char>,
> {
    match member(members, name) {
        None => Ok(None),
        Some(JsonModel::Null) => Ok(None),
        Some(JsonModel::Text(text)) => Ok(Some(text)),
        Some(_) => Err(mismatch(name)),
    }
}

/// The text of a member that has to be there.
pub open spec fn required_text(members: Seq<MemberModel>, name: Seq<char>) -> Result<
    Seq<char>,
    Seq<char>,
> {
    match member(members, name) {
        None => Err(missing(name)),
        Some(JsonModel::Text(text)) => Ok(text),
        Some(_) => Err(mismatch(name)),
    }
}

/// The texts of items that are all strings.
pub open spec fn texts(items: Seq<JsonModel>, name: Seq<char>) -> Result<
    Seq<Seq<char>>,
    Seq<char>,
>
    decreases items.len(),
{
    if items.len() == 0 {
        Ok(Seq::empty())
    } else {
        match (texts(items.drop_last(), name), items.last()) {
            (Ok(earlier), JsonModel::Text(text)) => Ok(earlier.push(text)),
            _ => Err(mismatch(name)),
        }
    }
}

/// The texts of a member that has to be there and be an array of strings.
pub open spec fn required_texts(members: Seq<MemberModel>, name: Seq<char>) -> Result<
    Seq<Seq<char>>,
    Seq<char>,
> {
    match member(members, name) {
        None => Err(missing(name)),
        Some(JsonModel::Array(items)) => texts(items, name),
        Some(_) => Err(mismatch(name)),
    }
}

/// The value of the first member of that name, if there is one.
pub open spec fn member(members: Seq<MemberModel>, name: Seq<char>) -> Option<JsonModel>
    decreases members.len(),
{
    if members.len() == 0 {
        None
    } else if members[0].name == name {
        Some(members[0].value)
    } else {
        member(members.drop_first(), name)
    }
}

/// Looking a name up from the `from`-th member on.
proof fn lemma_member_skip(members: Seq<MemberModel>, name: Seq<char>, from: int)
    requires
        0 <= from <= members.len(),
        forall|i: int| 0 <= i < from ==> (#[trigger] members[i]).name != name,
    ensures
        member(members, name) == member(members.skip(from), name),
    decreases from,
{
    if from > 0 {
        assert(members.drop_first().skip(from - 1) =~= members.skip(from));
        lemma_member_skip(members.drop_first(), name, from - 1);
    } else {
        assert(members.skip(0) =~= members);
    }
}

/// An array holds what its items hold.
pub proof fn lemma_array_view(tree: Json, items: Seq<Json>)
    requires
        tree matches Json::Array(v) && v@ == items,
    ensures
        tree@ == JsonModel::Array(items_view(items)),
{
    let inner = tree@->Array_0;
    assert(inner.len() == items.len());
    assert forall|i: int| 0 <= i < items.len() implies inner[i] == items_view(items)[i] by {
        assert(inner[i] == items[i].view());
    }
    assert(inner =~= items_view(items));
}

/// An object holds what its members hold.
pub proof fn lemma_object_view(tree: Json, members: Seq<Member>)
    requires
        tree matches Json::Object(v) && v@ == members,
    ensures
        tree@ == JsonModel::Object(members_view(members)),
{
    let inner = tree@->Object_0;
    assert(inner.len() == members.len());
    assert forall|i: int| 0 <= i < members.len() implies inner[i] == members_view(members)[i] by {
        assert(inner[i] == MemberModel {
            name: members[i].name@,
            value: members[i].value.view(),
        });
    }
    assert(inner =~= members_view(members));
}

impl Json {
    /// The JSON string that holds `text`.
    pub fn text(text: &str) -> (tree: Json)
        ensures
            tree@ == JsonModel::Text(text@),
    {
        Json::Text(text.to_owned())
    }

    /// The JSON array of `items`.
    pub fn array(items: Vec<Json>) -> (tree: Json)
        ensures
            tree@ == JsonModel::Array(items_view(items@)),
    {
        let tree = Json::Array(items);
        proof {
            lemma_array_view(tree, items@);
        }
        tree
    }

    /// The JSON object of `members`.
    pub fn object(members: Vec<Member>) -> (tree: Json)
        ensures
            tree@ == JsonModel::Object(members_view(members@)),
    {
        let tree = Json::Object(members);
        proof {
            lemma_object_view(tree, members@);
        }
        tree
    }

    /// The items, where the document is an array.
    pub fn items(&self) -> (r: Option<&Vec<Json>>)
        ensures
            match r {
                Some(items) => self@ == JsonModel::Array(items_view(items@)),
                None => !(self@ is Array),
            },
    {
        match self {
            Json::Array(items) => {
                proof {
                    lemma_array_view(*self, items@);
                }
                Some(items)
            },
            _ => None,
        }
    }

    /// The members, where the document is an object.
    pub fn members(&self) -> (r: Option<&Vec<Member>>)
        ensures
            match r {
                Some(members) => self@ == JsonModel::Object(members_view(members@)),
                None => !(self@ is Object),
            },
    {
        match self {
            Json::Object(members) => {
                proof {
                    lemma_object_view(*self, members@);
                }
                Some(members)
            },
            _ => None,
        }
    }

    /// The text, where the document is a string.
    pub fn as_text(&self) -> (r: Option<&str>)
        ensures
            match r {
                Some(text) => self@ == JsonModel::Text(text@),
                None => !(self@ is Text),
            },
    {
        match self {
            Json::Text(text) => Some(text.as_str()),
            _ => None,
        }
    }

    /// Whether the document is `null`.
    pub fn is_null(&self) -> (r: bool)
        ensures
            r == (self@ is Null),
    {
        match self {
            Json::Null => true,
            _ => false,
        }
    }
}

/// The value of the first member of that name, if there is one.
pub fn find<'a>(members: &'a Vec<Member>, name: &str) -> (r: Option<&'a Json>)
    ensures
        match r {
            Some(value) => member(members_view(members@), name@) == Some(value@),
            None => member(members_view(members@), name@) is None,
        },
{
    let ghost all = members_view(members@);
    let mut i: usize = 0;
    while i < members.len()
        invariant
            i <= members.len(),
            all == members_view(members@),
            forall|j: int| 0 <= j < i ==> (#[trigger] all[j]).name != name@,
        decreases members.len() - i,
    {
        if same_text(members[i].name.as_str(), name) {
            proof {
                lemma_member_skip(all, name@, i as int);
                assert(all.skip(i as int)[0] == all[i as int]);
            }
            return Some(&members[i].value);
        }
        i += 1;
    }
    proof {
        lemma_member_skip(all, name@, all.len() as int);
    }
    None
}

/// The member of that name and value.
pub fn entry(name: &str, value: Json) -> (m: Member)
    ensures
        m.name@ == name@,
        m.value == value,
{
    Member { name: name.to_owned(), value }
}

/// The text of an optional member.
pub fn read_optional_text(members: &Vec<Member>, name: &str) -> (r: Result<Option<String>, String>)
    ensures
        match r {
            Ok(text) => optional_text(members_view(members@), name@) == Ok::<
                Option<Seq<char>>,
                Seq<char>,
            >(text_of(text)),
            Err(words) => optional_text(members_view(members@), name@) == Err::<
                Option<Seq<char>>,
                Seq<char>,
            >(words@),
        },
{
    match find(members, name) {
        None => Ok(None),
        Some(value) => {
            if value.is_null() {
                Ok(None)
            } else {
                match value.as_text() {
                    Some(text) => Ok(Some(text.to_owned())),
                    None => Err(mismatch_words(name)),
                }
            }
        },
    }
}

/// The text of a member that has to be there.
pub fn read_required_text(members: &Vec<Member>, name: &str) -> (r: Result<String, String>)
    ensures
        read(r) == required_text(members_view(members@), name@),
{
    match find(members, name) {
        None => Err(missing_words(name)),
        Some(value) => match value.as_text() {
            Some(text) => Ok(text.to_owned()),
            None => Err(mismatch_words(name)),
        },
    }
}

/// The texts of a member that has to be there and be an array of strings.
pub fn read_required_texts(members: &Vec<Member>, name: &str) -> (r: Result<Vec<String>, String>)
    ensures
        match r {
            Ok(list) => required_texts(members_view(members@), name@) == Ok::<
                Seq<Seq<char>>,
                Seq<char>,
            >(list.deep_view()),
            Err(words) => required_texts(members_view(members@), name@) == Err::<
                Seq<Seq<char>>,
                Seq<char>,
            >(words@),
        },
{
    let items = match find(members, name) {
        None => {
            return Err(missing_words(name));
        },
        Some(value) => match value.items() {
            Some(items) => items,
            None => {
                return Err(mismatch_words(name));
            },
        },
    };
    let ghost all = items_view(items@);
    let mut list: Vec<String> = Vec::new();
    let mut i: usize = 0;
    assert(all.take(0) =~= Seq::<JsonModel>::empty());
    assert(list.deep_view() =~= Seq::<Seq<char>>::empty());
    while i < items.len()
        invariant
            i <= items.len(),
            all == items_view(items@),
            required_texts(members_view(members@), name@) == texts(all, name@),
            texts(all.take(i as int), name@) == Ok::<Seq<Seq<char>>, Seq<char>>(list.deep_view()),
        decreases items.len() - i,
    {
        proof {
            assert(all.take(i + 1).drop_last() =~= all.take(i as int));
            assert(all.take(i + 1).last() == items@[i as int]@);
        }
        match items[i].as_text() {
            Some(text) => {
                let ghost before = list.deep_view();
                list.push(text.to_owned());
                assert(list.deep_view() =~= before.push(text@));
            },
            None => {
                proof {
                    assert(all[i as int] == items@[i as int]@);
                    lemma_texts_fail(all, name@, i as int);
                }
                return Err(mismatch_words(name));
            },
        }
        i += 1;
    }
    assert(all.take(items.len() as int) =~= all);
    Ok(list)
}

/// Items of which one is no string have no texts.
pub proof fn lemma_texts_fail(items: Seq<JsonModel>, name: Seq<char>, at: int)
    requires
        0 <= at < items.len(),
        !(items[at] is Text),
    ensures
        texts(items, name) == Err::<Seq<Seq<char>>, Seq<char>>(mismatch(name)),
    decreases items.len(),
{
    if at < items.len() - 1 {
        lemma_texts_fail(items.drop_last(), name, at);
    }
}

/// The JSON array of the texts.
pub fn text_array(list: &Vec<String>) -> (tree: Json)
    ensures
        tree@ == JsonModel::Array(text_items(list.deep_view())),
{
    let mut items: Vec<Json> = Vec::new();
    let mut i: usize = 0;
    while i < list.len()
        invariant
            i <= list.len(),
            items.len() == i,
            forall|j: int| 0 <= j < i ==> (#[trigger] items@[j])@ == JsonModel::Text(list@[j]@),
        decreases list.len() - i,
    {
        items.push(Json::text(list[i].as_str()));
        i += 1;
    }
    assert(items_view(items@) =~= text_items(list.deep_view()));
    Json::array(items)
}

} // verus!
