//! TOML documents as plain trees, read and written by `toml`.

use vstd::prelude::*;

use crate::text::same_text;

verus! {

/// `toml::Value`, carried as it is.
#[verifier::external_type_specification]
#[verifier::external_body]
pub struct ExTomlValue(toml::Value);

/// An entry of a TOML table.
#[derive(Debug)]
pub struct Entry {
    pub key: String,
    pub value: Toml,
}

/// A TOML value, as far as the configuration looks into it: strings and
/// tables are taken apart, every other value is carried as it is. A table
/// lists its entries in the order in which `toml` walks them.
#[derive(Debug)]
pub enum Toml {
    Text(String),
    Table(Vec<Entry>),
    Other(toml::Value),
}

/// What an entry of a TOML table holds.
#[verifier::ext_equal]
pub struct EntryModel {
    pub key: Seq<char>,
    pub value: TomlModel,
}

/// What a TOML value holds.
#[verifier::ext_equal]
pub enum TomlModel {
    Text(Seq<char>),
    Table(Seq<EntryModel>),
    Other(toml::Value),
}

impl View for Toml {
    type V = TomlModel;

    open spec fn view(&self) -> TomlModel
        decreases self,
    {
        match self {
            Toml::Text(text) => TomlModel::Text(text@),
            Toml::Table(entries) => TomlModel::Table(
                Seq::new(
                    entries@.len(),
                    |i: int|
                        if 0 <= i < entries@.len() {
                            EntryModel { key: entries@[i].key@, value: entries@[i].value.view() }
                        } else {
                            EntryModel { key: Seq::empty(), value: TomlModel::Text(Seq::empty()) }
                        },
                ),
            ),
            Toml::Other(value) => TomlModel::Other(*value),
        }
    }
}

/// What a `toml::Value` holds.
pub uninterp spec fn value_model(value: toml::Value) -> TomlModel;

/// What `toml` reads from a text: the document, or the words of its error.
pub uninterp spec fn toml_parsed(text: Seq<char>) -> Result<TomlModel, Seq<char>>;

/// What a `toml::Value` keeps of a document it is made from: its map holds
/// the entries of a table in the order of their keys, and of entries with
/// one key the last.
pub uninterp spec fn stored(document: TomlModel) -> TomlModel;

/// The text that `toml` writes for a document in its pretty form, or the
/// words of its error.
pub uninterp spec fn toml_text(document: TomlModel) -> Result<Seq<char>, Seq<char>>;

/// `toml::from_str` for a `Value`: what it returns is a function of the text
/// alone, the value on success and otherwise the error, of which the words
/// are kept.
#[verifier::external_body]
fn value_from_str(text: &str) -> (r: Result<toml::Value, String>)
    ensures
        match r {
            Ok(value) => toml_parsed(text@) == Ok::<TomlModel, Seq<char>>(value_model(value)),
            Err(words) => toml_parsed(text@) == Err::<TomlModel, Seq<char>>(words@),
        },
{
    toml::from_str::<toml::Value>(text).map_err(|error| error.to_string())
}

/// Takes a `toml::Value` apart: a string and a table variant by variant,
/// any other value as a whole. The tree holds what the value holds.
#[verifier::external_body]
fn tree_of_value(value: &toml::Value) -> (tree: Toml)
    ensures
        tree@ == value_model(*value),
{
    match value {
        toml::Value::String(text) => Toml::Text(text.clone()),
        toml::Value::Table(entries) => Toml::Table(
            entries.iter().map(|(k, v)| Entry { key: k.clone(), value: tree_of_value(v) }).collect(),
        ),
        other => Toml::Other(other.clone()),
    }
}

/// Puts a `toml::Value` together, the entries of a table by collecting them
/// into a `toml::Table`: the value holds what is kept of the tree.
#[verifier::external_body]
fn value_of_tree(tree: &Toml) -> (value: toml::Value)
    ensures
        value_model(value) == stored(tree@),
{
    match tree {
        Toml::Text(text) => toml::Value::String(text.clone()),
        Toml::Table(entries) => toml::Value::Table(
            entries.iter().map(|e| (e.key.clone(), value_of_tree(&e.value))).collect(),
        ),
        Toml::Other(value) => value.clone(),
    }
}

/// `toml::to_string_pretty` for a `Value`: what it returns is a function of
/// the value alone, the text on success and otherwise the error, of which
/// the words are kept.
#[verifier::external_body]
fn value_to_string_pretty(value: &toml::Value) -> (r: Result<String, String>)
    ensures
        match r {
            Ok(text) => toml_text(value_model(*value)) == Ok::<Seq<char>, Seq<char>>(text@),
            Err(words) => toml_text(value_model(*value)) == Err::<Seq<char>, Seq<char>>(words@),
        },
{
    toml::to_string_pretty(value).map_err(|error| error.to_string())
}

/// Reads a TOML document.
pub fn parse(text: &str) -> (r: Result<Toml, String>)
    ensures
        match r {
            Ok(tree) => toml_parsed(text@) == Ok::<TomlModel, Seq<char>>(tree@),
            Err(words) => toml_parsed(text@) == Err::<TomlModel, Seq<char>>(words@),
        },
{
    match value_from_str(text) {
        Ok(value) => Ok(tree_of_value(&value)),
        Err(words) => Err(words),
    }
}

/// Writes a TOML document in its pretty form.
pub fn render(tree: &Toml) -> (r: Result<String, String>)
    ensures
        match r {
            Ok(text) => toml_text(stored(tree@)) == Ok::<Seq<char>, Seq<char>>(text@),
            Err(words) => toml_text(stored(tree@)) == Err::<Seq<char>, Seq<char>>(words@),
        },
{
    let value = value_of_tree(tree);
    value_to_string_pretty(&value)
}

/// What the entries of a table hold.
pub open spec fn entries_view(entries: Seq<Entry>) -> Seq<EntryModel> {
    Seq::new(entries.len(), |i: int| EntryModel { key: entries[i].key@, value: entries[i].value@ })
}

/// The entry of that key and value.
pub open spec fn pair(key: Seq<char>, value: TomlModel) -> EntryModel {
    EntryModel { key, value }
}

/// The value of the first entry of that key, if there is one.
pub open spec fn lookup(entries: Seq<EntryModel>, key: Seq<char>) -> Option<TomlModel>
    decreases entries.len(),
{
    if entries.len() == 0 {
        None
    } else if entries[0].key == key {
        Some(entries[0].value)
    } else {
        lookup(entries.drop_first(), key)
    }
}

/// Looking a key up from the `from`-th entry on.
proof fn lemma_lookup_skip(entries: Seq<EntryModel>, key: Seq<char>, from: int)
    requires
        0 <= from <= entries.len(),
        forall|i: int| 0 <= i < from ==> (#[trigger] entries[i]).key != key,
    ensures
        lookup(entries, key) == lookup(entries.skip(from), key),
    decreases from,
{
    if from > 0 {
        assert(entries.drop_first().skip(from - 1) =~= entries.skip(from));
        lemma_lookup_skip(entries.drop_first(), key, from - 1);
    } else {
        assert(entries.skip(0) =~= entries);
    }
}

/// A table holds what its entries hold.
pub proof fn lemma_table_view(tree: Toml, entries: Seq<Entry>)
    requires
        tree matches Toml::Table(v) && v@ == entries,
    ensures
        tree@ == TomlModel::Table(entries_view(entries)),
{
    let inner = tree@->Table_0;
    assert(inner.len() == entries.len());
    assert forall|i: int| 0 <= i < entries.len() implies inner[i] == entries_view(entries)[i] by {
        assert(inner[i] == EntryModel { key: entries[i].key@, value: entries[i].value.view() });
    }
    assert(inner =~= entries_view(entries));
}

impl Toml {
    /// The TOML string that holds `text`.
    pub fn text(text: &str) -> (tree: Toml)
        ensures
            tree@ == TomlModel::Text(text@),
    {
        Toml::Text(text.to_owned())
    }

    /// The TOML table of `entries`.
    pub fn table(entries: Vec<Entry>) -> (tree: Toml)
        ensures
            tree@ == TomlModel::Table(entries_view(entries@)),
    {
        let tree = Toml::Table(entries);
        proof {
            lemma_table_view(tree, entries@);
        }
        tree
    }

    /// The entries, where the value is a table.
    pub fn entries(&self) -> (r: Option<&Vec<Entry>>)
        ensures
            match r {
                Some(entries) => self@ == TomlModel::Table(entries_view(entries@)),
                None => !(self@ is Table),
            },
    {
        match self {
            Toml::Table(entries) => {
                proof {
                    lemma_table_view(*self, entries@);
                }
                Some(entries)
            },
            _ => None,
        }
    }

    /// The text, where the value is a string.
    pub fn as_text(&self) -> (r: Option<&str>)
        ensures
            match r {
                Some(text) => self@ == TomlModel::Text(text@),
                None => !(self@ is Text),
            },
    {
        match self {
            Toml::Text(text) => Some(text.as_str()),
            _ => None,
        }
    }
}

/// The entry of that key and value.
pub fn entry(key: &str, value: Toml) -> (e: Entry)
    ensures
        e.key@ == key@,
        e.value == value,
{
    Entry { key: key.to_owned(), value }
}

/// The value of the first entry of that key, if there is one.
pub fn get<'a>(entries: &'a Vec<Entry>, key: &str) -> (r: Option<&'a Toml>)
    ensures
        match r {
            Some(value) => lookup(entries_view(entries@), key@) == Some(value@),
            None => lookup(entries_view(entries@), key@) is None,
        },
{
    let ghost all = entries_view(entries@);
    let mut i: usize = 0;
    while i < entries.len()
        invariant
            i <= entries.len(),
            all == entries_view(entries@),
            forall|j: int| 0 <= j < i ==> (#[trigger] all[j]).key != key@,
        decreases entries.len() - i,
    {
        if same_text(entries[i].key.as_str(), key) {
            proof {
                lemma_lookup_skip(all, key@, i as int);
                assert(all.skip(i as int)[0] == all[i as int]);
            }
            return Some(&entries[i].value);
        }
        i += 1;
    }
    proof {
        lemma_lookup_skip(all, key@, all.len() as int);
    }
    None
}

} // verus!
