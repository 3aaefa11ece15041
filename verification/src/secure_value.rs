//! JSON values whose strings are secrets.

use vstd::prelude::*;

use crate::error::VaultClientErr;
use crate::json;
use crate::json::JsonNode;
use crate::secret::SecretString;
use crate::string_map;
use crate::string_map::StringMap;

verus! {

/// A JSON value that keeps every string of the document as a secret.
#[derive(Debug)]
pub enum SecureValue {
    /// `null`.
    Null,
    /// `true` or `false`.
    Bool(bool),
    /// A number, as the text that it is written as.
    Number(String),
    /// A string.
    Secret(SecretString),
    /// A string that needs no protection. Parsing never yields one.
    PlainString(String),
    /// An array.
    Array(Vec<SecureValue>),
    /// An object.
    Object(StringMap<SecureValue>),
}

impl SecureValue {
    /// Whether the value holds just what the document holds, with every
    /// string of the document held as a secret.
    pub open spec fn mirrors(self, document: json::Json) -> bool
        decreases document,
    {
        match document {
            json::Json::Null => self is Null,
            json::Json::Bool(b) => self matches SecureValue::Bool(own) && own == b,
            json::Json::Number(digits) => self matches SecureValue::Number(own) && own@ == digits,
            json::Json::Text(text) => self matches SecureValue::Secret(own) && own@ == text,
            json::Json::Array(items) => {
                &&& self matches SecureValue::Array(own)
                &&& own@.len() == items.len()
                &&& forall|i: int|
                    0 <= i < items.len() ==> (#[trigger] own@[i]).mirrors(items[i])
            },
            json::Json::Object(members) => {
                &&& self matches SecureValue::Object(own)
                &&& own@.dom() == members.dom()
                &&& forall|key: Seq<char>|
                    members.contains_key(key) ==> (#[trigger] own@[key]).mirrors(members[key])
            },
        }
    }

    /// Whether the value is an object that has a member under `key`.
    pub open spec fn has(self, key: Seq<char>) -> bool {
        self matches SecureValue::Object(members) && members@.contains_key(key)
    }

    /// The member of an object under `key`.
    pub open spec fn at(self, key: Seq<char>) -> SecureValue
        recommends
            self.has(key),
    {
        self->Object_0@[key]
    }

    /// Moves a parsed value into its protected form.
    fn protect(value: serde_json::Value) -> (protected: SecureValue)
        ensures
            protected.mirrors(json::json_tree(value)),
        decreases json::json_tree(value),
    {
        match json::open(value) {
            JsonNode::Null => SecureValue::Null,
            JsonNode::Bool(b) => SecureValue::Bool(b),
            JsonNode::Number(digits) => SecureValue::Number(digits),
            JsonNode::Text(text) => SecureValue::Secret(SecretString::from_owned(text)),
            JsonNode::Array(items) => {
                let ghost given = items@;
                let mut own: Vec<SecureValue> = Vec::new();
                for item in it: items
                    invariant
                        it.seq() == given,
                        json::json_tree(value) == json::Json::Array(
                            given.map_values(|item: serde_json::Value| json::json_tree(item)),
                        ),
                        own@.len() == it.index(),
                        forall|i: int|
                            0 <= i < own@.len() ==> (#[trigger] own@[i]).mirrors(
                                json::json_tree(given[i]),
                            ),
                {
                    assert(json::json_tree(item) == json::json_tree(value)->Array_0[it.index() as int]);
                    own.push(Self::protect(item));
                }
                SecureValue::Array(own)
            },
            JsonNode::Object(fields) => {
                let ghost given = fields@;
                let mut own: StringMap<SecureValue> = StringMap::new();
                for field in it: fields
                    invariant
                        it.seq() == given,
                        string_map::keys_differ(given),
                        json::json_tree(value) == json::Json::Object(json::members_of(given)),
                        own@.dom() == string_map::entries_map(given.take(it.index() as int)).dom(),
                        forall|key: Seq<char>|
                            own@.contains_key(key) ==> (#[trigger] own@[key]).mirrors(
                                json::members_of(given)[key],
                            ),
                {
                    let (key, inner) = field;
                    proof {
                        let i = it.index() as int;
                        string_map::lemma_entries_map_value(given, i);
                        assert(given.take(i + 1).drop_last() =~= given.take(i));
                        assert(json::json_tree(value)->Object_0[key@] == json::json_tree(inner));
                        assert(decreases_to!(
                            json::json_tree(value) => json::json_tree(value)->Object_0[key@]));
                    }
                    own.insert(key, Self::protect(inner));
                }
                assert(given.take(given.len() as int) =~= given);
                assert(own@.dom() =~= json::members_of(given).dom());
                SecureValue::Object(own)
            },
        }
    }

    /// Parses a JSON text.
    pub fn from_json(text: &str) -> (parsed: Result<SecureValue, VaultClientErr>)
        ensures
            match (json::json_parse(text@), parsed) {
                (Ok(document), Ok(value)) => value.mirrors(document),
                (Err(message), Err(VaultClientErr::Json(shown))) => shown@ == message,
                _ => false,
            },
    {
        match json::parse(text) {
            Ok(value) => Ok(Self::protect(value)),
            Err(message) => Err(VaultClientErr::Json(message)),
        }
    }
}

/// A value that mirrors a document has the members that the document has, and
/// each mirrors its counterpart.
pub proof fn lemma_members_mirror(value: SecureValue, document: json::Json, key: Seq<char>)
    requires
        value.mirrors(document),
    ensures
        value.has(key) == document.has(key),
        value.has(key) ==> value.at(key).mirrors(document.at(key)),
{
    if let json::Json::Object(members) = document {
        let own = value->Object_0;
        assert(own@.contains_key(key) == own@.dom().contains(key));
        assert(members.contains_key(key) == members.dom().contains(key));
        if members.contains_key(key) {
            assert(own@[key].mirrors(members[key]));
        }
    }
}

/// A value mirrors one document at most: nothing of the document is lost.
pub proof fn law_document_can_be_told(value: SecureValue, a: json::Json, b: json::Json)
    requires
        value.mirrors(a),
        value.mirrors(b),
    ensures
        a == b,
    decreases a,
{
    match (a, b) {
        (json::Json::Array(xs), json::Json::Array(ys)) => {
            let own = value->Array_0;
            assert forall|i: int| 0 <= i < xs.len() implies xs[i] == ys[i] by {
                assert(own@[i].mirrors(xs[i]));
                assert(own@[i].mirrors(ys[i]));
                law_document_can_be_told(own@[i], xs[i], ys[i]);
            }
            assert(xs =~= ys);
        },
        (json::Json::Object(xs), json::Json::Object(ys)) => {
            let own = value->Object_0;
            assert forall|key: Seq<char>| xs.contains_key(key) implies #[trigger] xs[key]
                == ys[key] by {
                assert(own@[key].mirrors(xs[key]));
                assert(ys.dom().contains(key));
                assert(own@[key].mirrors(ys[key]));
                law_document_can_be_told(own@[key], xs[key], ys[key]);
            }
            assert(xs =~= ys);
        },
        _ => {},
    }
}

/// Every string of a parsed document is a secret, and nothing else is: no
/// value that mirrors a document is a string without protection. Objects are
/// objects.
pub proof fn law_parsed_strings_are_secrets(value: SecureValue, document: json::Json)
    requires
        value.mirrors(document),
    ensures
        !(value is PlainString),
        value is Secret <==> document is Text,
        value is Object <==> document is Object,
{
}

/// Each kind of document is kept as what it is: nothing as nothing, a truth
/// value as the same one, and a number and a string with their whole text.
pub proof fn law_scalars_are_kept(
    value: SecureValue,
    b: bool,
    digits: Seq<char>,
    text: Seq<char>,
)
    ensures
        value.mirrors(json::Json::Null) <==> value is Null,
        value.mirrors(json::Json::Bool(b)) <==> (value matches SecureValue::Bool(own) && own == b),
        value.mirrors(json::Json::Number(digits)) <==> (value matches SecureValue::Number(own)
            && own@ == digits),
        value.mirrors(json::Json::Text(text)) <==> (value matches SecureValue::Secret(own) && own@
            == text),
{
}

/// An array is kept item by item, in order, and an object member by member,
/// each under its own key; none is added and none is lost.
pub proof fn law_items_and_members_are_kept(
    value: SecureValue,
    items: Seq<json::Json>,
    members: Map<Seq<char>, json::Json>,
    i: int,
    key: Seq<char>,
)
    ensures
        value.mirrors(json::Json::Array(items)) ==> {
            &&& value matches SecureValue::Array(own)
            &&& own@.len() == items.len()
            &&& 0 <= i < items.len() ==> own@[i].mirrors(items[i])
        },
        value.mirrors(json::Json::Object(members)) ==> {
            &&& value matches SecureValue::Object(own)
            &&& own@.contains_key(key) <==> members.contains_key(key)
            &&& members.contains_key(key) ==> own@[key].mirrors(members[key])
        },
{
    if value.mirrors(json::Json::Object(members)) {
        lemma_members_mirror(value, json::Json::Object(members), key);
    }
}

/// A value has the members that its object has, each under its own key, and
/// what is no object has none.
pub proof fn law_members_are_found_by_key(
    value: SecureValue,
    members: StringMap<SecureValue>,
    key: Seq<char>,
)
    ensures
        SecureValue::Object(members).has(key) <==> members@.contains_key(key),
        members@.contains_key(key) ==> SecureValue::Object(members).at(key) == members@[key],
        !(value is Object) ==> !value.has(key),
{
}

} // verus!
