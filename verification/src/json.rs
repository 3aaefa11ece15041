//! JSON documents, read and written by `serde_json`.

use vstd::prelude::*;

#[allow(unused_imports)]
use crate::string_map;

verus! {

/// A JSON document.
pub enum Json {
    /// `null`.
    Null,
    /// `true` or `false`.
    Bool(bool),
    /// A number, as the text that it is written as.
    Number(Seq<char>),
    /// A string.
    Text(Seq<char>),
    /// An array.
    Array(Seq<Json>),
    /// An object.
    Object(Map<Seq<char>, Json>),
}

impl Json {
    /// The member of an object under `key`; `null` where there is none, also
    /// where the document is no object.
    pub open spec fn at(self, key: Seq<char>) -> Json {
        match self {
            Json::Object(members) if members.contains_key(key) => members[key],
            _ => Json::Null,
        }
    }

    /// Whether the document is an object that has a member under `key`.
    pub open spec fn has(self, key: Seq<char>) -> bool {
        self matches Json::Object(members) && members.contains_key(key)
    }
}

/// A parsed JSON value, from the `serde_json` crate.
#[verifier::external_type_specification]
#[verifier::external_body]
pub struct ExValue(serde_json::Value);

/// The document that a parsed value holds.
pub uninterp spec fn json_tree(value: serde_json::Value) -> Json;

/// What `serde_json::from_str` makes of a text: the document, or the message
/// of the error.
pub uninterp spec fn json_parse(text: Seq<char>) -> Result<Json, Seq<char>>;

/// The text that `serde_json` writes for a document, in its compact form. The
/// members of an object are written in the order of their keys.
pub uninterp spec fn json_text(document: Json) -> Seq<char>;

/// The outermost layer of a parsed value.
pub enum JsonNode {
    /// `null`.
    Null,
    /// `true` or `false`.
    Bool(bool),
    /// A number, as the text that it is written as.
    Number(String),
    /// A string.
    Text(String),
    /// The items of an array.
    Array(Vec<serde_json::Value>),
    /// The members of an object.
    Object(Vec<(String, serde_json::Value)>),
}

/// The members of an object that are given as a list.
pub open spec fn members_of(fields: Seq<(String, serde_json::Value)>) -> Map<Seq<char>, Json> {
    string_map::entries_map(fields).map_values(|value: serde_json::Value| json_tree(value))
}

impl JsonNode {
    /// Whether the layer, with what lies under it, is the document.
    pub open spec fn is_top_of(self, document: Json) -> bool {
        match self {
            JsonNode::Null => document == Json::Null,
            JsonNode::Bool(b) => document == Json::Bool(b),
            JsonNode::Number(digits) => document == Json::Number(digits@),
            JsonNode::Text(text) => document == Json::Text(text@),
            JsonNode::Array(items) => document == Json::Array(
                items@.map_values(|item: serde_json::Value| json_tree(item)),
            ),
            JsonNode::Object(fields) => string_map::keys_differ(fields@) && document == Json::Object(
                members_of(fields@),
            ),
        }
    }
}

/// Whether `serde_json` writes the text of a string as it stands, with no
/// character escaped.
pub open spec fn is_verbatim(s: Seq<char>) -> bool {
    forall|i: int| 0 <= i < s.len() ==> #[trigger] s[i] >= ' ' && s[i] != '"' && s[i] != '\\'
}

/// `serde_json::from_str::<serde_json::Value>`: parses the text.
///
/// The outcome is a function of the text; an error is handed on as its
/// message.
#[verifier::external_body]
pub(crate) fn parse(text: &str) -> (parsed: Result<serde_json::Value, String>)
    ensures
        match parsed {
            Ok(value) => json_parse(text@) == Ok::<Json, Seq<char>>(json_tree(value)),
            Err(message) => json_parse(text@) == Err::<Json, Seq<char>>(message@),
        },
{
    serde_json::from_str::<serde_json::Value>(text).map_err(|e| e.to_string())
}

/// `<serde_json::Value as ToString>::to_string`: writes the value compactly.
///
/// `null` is written as the word, and a string that needs no escapes is
/// written between double quotes.
#[verifier::external_body]
pub(crate) fn write(value: &serde_json::Value) -> (text: String)
    ensures
        text@ == json_text(json_tree(*value)),
        json_tree(*value) == Json::Null ==> text@ == "null"@,
        json_tree(*value) matches Json::Text(s) ==> is_verbatim(s) ==> text@ == seq!['"'] + s
            + seq!['"'],
{
    value.to_string()
}

/// `<serde_json::Value as Index<&str>>::index`: the member under `key`, or
/// `null` where there is none.
#[verifier::external_body]
pub(crate) fn member<'a>(value: &'a serde_json::Value, key: &str) -> (found: &'a serde_json::Value)
    ensures
        json_tree(*found) == json_tree(*value).at(key@),
{
    &value[key]
}

/// The variants of `serde_json::Value`, told apart. The members of an object
/// come in the order of the map that holds them, each key once.
#[verifier::external_body]
pub(crate) fn open(value: serde_json::Value) -> (node: JsonNode)
    ensures
        node.is_top_of(json_tree(value)),
{
    match value {
        serde_json::Value::Null => JsonNode::Null,
        serde_json::Value::Bool(b) => JsonNode::Bool(b),
        serde_json::Value::Number(n) => JsonNode::Number(n.to_string()),
        serde_json::Value::String(s) => JsonNode::Text(s),
        serde_json::Value::Array(items) => JsonNode::Array(items),
        serde_json::Value::Object(members) => JsonNode::Object(members.into_iter().collect()),
    }
}

/// `<serde_json::Value as From<&str>>::from`: a JSON string.
#[verifier::external_body]
pub(crate) fn text_value(text: &str) -> (value: serde_json::Value)
    ensures
        json_tree(value) == Json::Text(text@),
{
    serde_json::Value::from(text)
}

/// `<serde_json::Map<String, Value> as FromIterator<(String, Value)>>::from_iter`:
/// a JSON object with the given members.
#[verifier::external_body]
pub(crate) fn object_value(fields: Vec<(String, serde_json::Value)>) -> (value: serde_json::Value)
    requires
        string_map::keys_differ(fields@),
    ensures
        json_tree(value) == Json::Object(members_of(fields@)),
{
    serde_json::Value::Object(serde_json::Map::from_iter(fields))
}

/// The object with two members that are strings.
pub open spec fn text_pair(
    key1: Seq<char>,
    text1: Seq<char>,
    key2: Seq<char>,
    text2: Seq<char>,
) -> Json {
    Json::Object(map![key1 => Json::Text(text1), key2 => Json::Text(text2)])
}

/// Writes the object with two members that are strings.
pub(crate) fn write_text_pair(key1: &str, text1: &str, key2: &str, text2: &str) -> (text: String)
    requires
        key1@ != key2@,
    ensures
        text@ == json_text(text_pair(key1@, text1@, key2@, text2@)),
{
    let mut fields: Vec<(String, serde_json::Value)> = Vec::new();
    fields.push((key1.to_owned(), text_value(text1)));
    fields.push((key2.to_owned(), text_value(text2)));
    proof {
        reveal_with_fuel(string_map::entries_map, 3);
        assert(fields@.drop_last().drop_last() =~= Seq::empty());
        assert(members_of(fields@) =~= map![
            key1@ => Json::Text(text1@),
            key2@ => Json::Text(text2@),
        ]);
    }
    write(&object_value(fields))
}

/// A document has the members that its object has, and each is found under its
/// own key, whatever other members there are; what is no object has none.
pub proof fn law_members_are_found_by_key(
    members: Map<Seq<char>, Json>,
    key: Seq<char>,
    document: Json,
)
    ensures
        Json::Object(members).has(key) <==> members.contains_key(key),
        members.contains_key(key) ==> Json::Object(members).at(key) == members[key],
        !members.contains_key(key) ==> Json::Object(members).at(key) is Null,
        !(document is Object) ==> !document.has(key) && document.at(key) is Null,
{
}

/// An object of two strings has both of them, whole, each under its key, and
/// nothing else.
pub proof fn law_pair_holds_both_texts(
    key1: Seq<char>,
    text1: Seq<char>,
    key2: Seq<char>,
    text2: Seq<char>,
    other: Seq<char>,
)
    requires
        key1 != key2,
        other != key1,
        other != key2,
    ensures
        text_pair(key1, text1, key2, text2).at(key1) == Json::Text(text1),
        text_pair(key1, text1, key2, text2).at(key2) == Json::Text(text2),
        !text_pair(key1, text1, key2, text2).has(other),
{
}

} // verus!
