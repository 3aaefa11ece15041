//! Fetching secrets of the key-value store, version 2.

use vstd::prelude::*;
use vstd::string::*;

#[allow(unused_imports)]
use crate::client;
use crate::client::VaultClient;
#[allow(unused_imports)]
use crate::error;
use crate::error::VaultClientErr;
#[allow(unused_imports)]
use crate::http;
use crate::http::{HttpMethod, HttpRequest};
#[allow(unused_imports)]
use crate::json;
use crate::secret::{seal, SecretString};
#[allow(unused_imports)]
use crate::secure_value;
use crate::secure_value::SecureValue;
use crate::string_map;
use crate::string_map::StringMap;
use crate::text;
use crate::text::Strip;
#[allow(unused_imports)]
use crate::views;

verus! {

/// What is said where no token is in use.
pub const NO_TOKEN_IN_USE: &'static str = "invalid token";

/// What is said of a reply that does not hold a secret of the key-value store.
pub const UNEXPECTED_SHAPE: &'static str = "secret of unexpected shape";

/// What is said of a secret that is no object.
pub const NOT_AN_OBJECT: &'static str = "secret value is not a string";

/// What is to be done next to fetch a secret, and whose outcome is awaited.
#[derive(Debug)]
pub enum FetchStage {
    /// Begin to fetch the secret at this path of the server's interface.
    Begin(String),
    /// Send the request and read the body of the reply.
    Send(HttpRequest),
    /// Nothing more: the secret, or why there is none.
    Finished(Result<SecureValue, VaultClientErr>),
}

/// The outcome of a stage.
pub enum FetchEvent {
    /// Go ahead.
    Start,
    /// The body of the reply, or the message of the HTTP client's error.
    Reply(Result<String, String>),
}

/// The URL of the secret at a path.
pub open spec fn secret_url(addr: Seq<char>, api_path: Seq<char>) -> Seq<char> {
    addr + "/"@ + text::stripped_start(text::trimmed(api_path), Strip::Slash)
}

/// The secret in a reply: what stands under `data` in the object under `data`.
pub open spec fn secret_document(reply: json::Json) -> Option<json::Json> {
    if reply.has("data"@) && reply.at("data"@).has("data"@) {
        Some(reply.at("data"@).at("data"@))
    } else {
        None
    }
}

/// Whether `fetched` is what fetching must give for a reply with this text.
pub open spec fn fetched_from(
    fetched: Result<SecureValue, VaultClientErr>,
    reply: Seq<char>,
) -> bool {
    match json::json_parse(reply) {
        Ok(document) if secret_document(document) is Some => fetched matches Ok(value)
            && value.mirrors(secret_document(document)->0),
        _ => fetched matches Err(e) && e@ == error::ErrView::InvalidSecret(UNEXPECTED_SHAPE@),
    }
}

/// The text of a string, a number or a truth value; `None` for any other
/// value.
pub open spec fn simple_text(value: SecureValue) -> Option<Seq<char>> {
    match value {
        SecureValue::Secret(secret) => Some(secret@),
        SecureValue::PlainString(plain) => Some(plain@),
        SecureValue::Number(digits) => Some(digits@),
        SecureValue::Bool(b) => Some(bool_text(b)),
        _ => None,
    }
}

/// The word for a truth value.
pub open spec fn bool_text(b: bool) -> Seq<char> {
    if b {
        "true"@
    } else {
        "false"@
    }
}

/// Whether the map has the keys of the object, each with the text of the
/// member under it.
pub open spec fn simplifies(
    simple: Map<Seq<char>, Option<SecretString>>,
    members: Map<Seq<char>, SecureValue>,
) -> bool {
    &&& simple.dom() == members.dom()
    &&& forall|key: Seq<char>|
        members.contains_key(key) ==> views::option_view(#[trigger] simple[key]) == simple_text(
            members[key],
        )
}

impl VaultClient {
    /// Fetches the secret at a path, one stage at a time. Starts with
    /// [`FetchStage::Begin`] and [`FetchEvent::Start`]. An outcome that is not
    /// the awaited one changes nothing.
    pub fn fetch_secret(&self, stage: FetchStage, event: FetchEvent) -> (next: FetchStage)
        ensures
            match (stage, event) {
                (FetchStage::Begin(api_path), FetchEvent::Start) => match self@.token {
                    Some(token) => {
                        &&& next matches FetchStage::Send(request)
                        &&& request@ == http::authorized_get(
                            secret_url(self@.addr, api_path@),
                            token,
                        )
                        &&& request.method == HttpMethod::Get
                        &&& request.url@ == self@.addr + "/"@ + text::stripped_start(
                            text::trimmed(api_path@),
                            Strip::Slash,
                        )
                        &&& request.vault_token matches Some(sent) && sent@ == token
                        &&& request.content_type is None
                        &&& request.body is None
                    },
                    None => next matches FetchStage::Finished(Err(e)) && e@
                        == error::ErrView::InvalidToken(NO_TOKEN_IN_USE@) && e@
                        == error::ErrView::InvalidToken("invalid token"@),
                },
                (FetchStage::Send(_), FetchEvent::Reply(Ok(body))) => {
                    &&& next matches FetchStage::Finished(fetched)
                    &&& fetched_from(fetched, body@)
                    &&& match json::json_parse(body@) {
                        Ok(document) if document.has("data"@) && document.at("data"@).has(
                            "data"@,
                        ) => fetched matches Ok(value) && value.mirrors(
                            document.at("data"@).at("data"@),
                        ),
                        _ => fetched matches Err(VaultClientErr::InvalidSecret(m)) && m@
                            == "secret of unexpected shape"@,
                    }
                },
                (FetchStage::Send(_), FetchEvent::Reply(Err(message))) =>
                    next matches FetchStage::Finished(Err(e)) && e@ == error::ErrView::Http(
                        message@,
                    ),
                _ => next == stage,
            },
    {
        match (stage, event) {
            (FetchStage::Begin(api_path), FetchEvent::Start) => match self.token() {
                Some(token) => {
                    let path = text::strip_start(text::trim(api_path.as_str()), Strip::Slash);
                    let url = self.vault_addr().to_owned().concat("/").concat(path);
                    FetchStage::Send(
                        HttpRequest {
                            method: HttpMethod::Get,
                            url,
                            vault_token: Some(token.clone()),
                            content_type: None,
                            body: None,
                        },
                    )
                },
                None => FetchStage::Finished(
                    Err(VaultClientErr::InvalidToken(NO_TOKEN_IN_USE.to_owned())),
                ),
            },
            (FetchStage::Send(_), FetchEvent::Reply(Ok(body))) => {
                let mut body = body;
                let sealed = seal(&mut body);
                match SecureValue::from_json(sealed.expose_secret()) {
                    Ok(reply) => {
                        proof {
                            let document = json::json_parse(sealed@)->Ok_0;
                            secure_value::lemma_members_mirror(reply, document, "data"@);
                            if reply.has("data"@) {
                                secure_value::lemma_members_mirror(
                                    reply.at("data"@),
                                    document.at("data"@),
                                    "data"@,
                                );
                            }
                        }
                        FetchStage::Finished(Self::secret_of_reply(reply))
                    },
                    Err(_) => FetchStage::Finished(
                        Err(VaultClientErr::InvalidSecret(UNEXPECTED_SHAPE)),
                    ),
                }
            },
            (FetchStage::Send(_), FetchEvent::Reply(Err(message))) => FetchStage::Finished(
                Err(VaultClientErr::Http(message)),
            ),
            (stage, _) => stage,
        }
    }

    /// The secret in a reply: what stands under `data` in the object under
    /// `data`.
    pub fn secret_of_reply(reply: SecureValue) -> (secret: Result<SecureValue, VaultClientErr>)
        ensures
            if reply.has("data"@) && reply.at("data"@).has("data"@) {
                secret matches Ok(value) && value == reply.at("data"@).at("data"@)
            } else {
                secret matches Err(e) && e@ == error::ErrView::InvalidSecret(UNEXPECTED_SHAPE@)
            },
    {
        if let SecureValue::Object(outer) = reply {
            let mut outer = outer;
            if let Some(SecureValue::Object(inner)) = outer.remove("data") {
                let mut inner = inner;
                if let Some(value) = inner.remove("data") {
                    return Ok(value);
                }
            }
        }
        Err(VaultClientErr::InvalidSecret(UNEXPECTED_SHAPE))
    }

    /// The secret that was fetched, as a map of strings. Strings, numbers and
    /// truth values stand in it as their texts; any other member is kept
    /// without a value.
    pub fn fetch_secret_as_simple_map(fetched: Result<SecureValue, VaultClientErr>) -> (simple:
        Result<StringMap<Option<SecretString>>, VaultClientErr>)
        ensures
            match fetched {
                Ok(SecureValue::Object(members)) => {
                    &&& simple matches Ok(map)
                    &&& simplifies(map@, members@)
                    &&& map@.dom() == members@.dom()
                    &&& forall|key: Seq<char>|
                        members@.contains_key(key) ==> match members@[key] {
                            SecureValue::Secret(text) => #[trigger] map@[key] matches Some(s)
                                && s@ == text@,
                            SecureValue::PlainString(text) => map@[key] matches Some(s) && s@
                                == text@,
                            SecureValue::Number(digits) => map@[key] matches Some(s) && s@
                                == digits@,
                            SecureValue::Bool(b) => map@[key] matches Some(s) && s@ == if b {
                                "true"@
                            } else {
                                "false"@
                            },
                            _ => map@[key] is None,
                        }
                },
                Ok(_) => simple matches Err(e) && e@ == error::ErrView::InvalidSecret(
                    NOT_AN_OBJECT@,
                ) && e@ == error::ErrView::InvalidSecret("secret value is not a string"@),
                Err(error) => simple matches Err(e) && e == error,
            },
    {
        let value = match fetched {
            Ok(value) => value,
            Err(error) => {
                return Err(error);
            },
        };
        if let SecureValue::Object(members) = value {
            let entries: Vec<(String, SecureValue)> = members.into_entries();
            let ghost given = entries@;
            let mut simple: StringMap<Option<SecretString>> = StringMap::new();
            for entry in it: entries
                invariant
                    it.seq() == given,
                    string_map::keys_differ(given),
                    simple@.dom() == string_map::entries_map(given.take(it.index() as int)).dom(),
                    forall|key: Seq<char>|
                        simple@.contains_key(key) ==> views::option_view(#[trigger] simple@[key])
                            == simple_text(string_map::entries_map(given)[key]),
            {
                let (key, value) = entry;
                proof {
                    let i = it.index() as int;
                    string_map::lemma_entries_map_value(given, i);
                    assert(given.take(i + 1).drop_last() =~= given.take(i));
                }
                simple.insert(key, Self::simplify(value));
            }
            assert(given.take(given.len() as int) =~= given);
            Ok(simple)
        } else {
            Err(VaultClientErr::InvalidSecret(NOT_AN_OBJECT))
        }
    }

    /// The text of a string, a number or a truth value, as a secret; `None` for
    /// any other value.
    pub fn simplify(value: SecureValue) -> (secret: Option<SecretString>)
        ensures
            views::option_view(secret) == simple_text(value),
            match value {
                SecureValue::Secret(text) => secret matches Some(s) && s@ == text@,
                SecureValue::PlainString(text) => secret matches Some(s) && s@ == text@,
                SecureValue::Number(digits) => secret matches Some(s) && s@ == digits@,
                SecureValue::Bool(true) => secret matches Some(s) && s@ == "true"@,
                SecureValue::Bool(false) => secret matches Some(s) && s@ == "false"@,
                _ => secret is None,
            },
    {
        match value {
            SecureValue::Secret(secret) => Some(secret),
            SecureValue::PlainString(plain) => Some(SecretString::from_owned(plain)),
            SecureValue::Number(digits) => Some(SecretString::from_owned(digits)),
            SecureValue::Bool(b) => if b {
                Some(SecretString::from_plain("true"))
            } else {
                Some(SecretString::from_plain("false"))
            },
            _ => None,
        }
    }
}

/// The text of a string, a number or a truth value of a document; `None` for
/// anything else.
pub open spec fn scalar_text(document: json::Json) -> Option<Seq<char>> {
    match document {
        json::Json::Text(text) => Some(text),
        json::Json::Number(digits) => Some(digits),
        json::Json::Bool(b) => Some(bool_text(b)),
        _ => None,
    }
}

/// The simple map of a secret has the keys of the document's object; each
/// string, number and truth value stands there as its text, and anything else
/// without a value.
pub proof fn law_simple_map_of_document(
    simple: Map<Seq<char>, Option<SecretString>>,
    secret: SecureValue,
    members: Map<Seq<char>, json::Json>,
    key: Seq<char>,
)
    requires
        secret.mirrors(json::Json::Object(members)),
        simplifies(simple, secret->Object_0@),
    ensures
        simple.contains_key(key) <==> members.contains_key(key),
        simple.contains_key(key) ==> views::option_view(simple[key]) == scalar_text(members[key]),
{
    let own = secret->Object_0;
    secure_value::lemma_members_mirror(secret, json::Json::Object(members), key);
    assert(simple.contains_key(key) == simple.dom().contains(key));
    assert(own@.contains_key(key) == own@.dom().contains(key));
}

/// A slash before the path does not change the URL of a secret.
pub proof fn law_leading_slash_is_ignored(addr: Seq<char>, api_path: Seq<char>)
    requires
        api_path.len() > 0 ==> !text::is_whitespace(api_path.first()),
    ensures
        secret_url(addr, seq!['/'] + api_path) == secret_url(addr, api_path),
{
    let slashed = seq!['/'] + api_path;
    assert(text::stripped_start(slashed, Strip::Whitespace) == slashed);
    assert(text::stripped_start(api_path, Strip::Whitespace) == api_path);
    lemma_stripped_end_past_slash(api_path);
    let rest = text::stripped_end(api_path, Strip::Whitespace);
    assert((seq!['/'] + rest).drop_first() =~= rest);
}

/// White space at the end of a text is stripped all the same behind a slash.
proof fn lemma_stripped_end_past_slash(s: Seq<char>)
    ensures
        text::stripped_end(seq!['/'] + s, Strip::Whitespace) == seq!['/'] + text::stripped_end(
            s,
            Strip::Whitespace,
        ),
    decreases s.len(),
{
    let slashed = seq!['/'] + s;
    if s.len() > 0 {
        assert(slashed.last() == s.last());
        assert(slashed.drop_last() =~= seq!['/'] + s.drop_last());
        lemma_stripped_end_past_slash(s.drop_last());
    } else {
        assert(slashed =~= seq!['/']);
        assert(seq!['/'] + s =~= seq!['/']);
    }
}

/// The address and the path of a secret are joined by one slash: the part
/// behind it does not begin with another.
pub proof fn law_url_has_one_slash_between(addr: Seq<char>, api_path: Seq<char>)
    requires
        client::is_bare(addr),
    ensures
        ({
            let url = secret_url(addr, api_path);
            &&& url.len() > addr.len()
            &&& url.subrange(0, addr.len() as int) == addr
            &&& url[addr.len() as int] == '/'
            &&& addr.len() > 0 ==> url[addr.len() - 1] != '/'
            &&& url.len() > addr.len() + 1 ==> url[addr.len() as int + 1] != '/'
        }),
{
    let path = text::stripped_start(text::trimmed(api_path), Strip::Slash);
    reveal_strlit("/");
    lemma_no_leading_slash(text::trimmed(api_path));
    let url = secret_url(addr, api_path);
    assert(url =~= addr + ("/"@ + path));
    assert(url.subrange(0, addr.len() as int) =~= addr);
}

/// What is cut off the start is not at the start any more.
proof fn lemma_no_leading_slash(s: Seq<char>)
    ensures
        text::stripped_start(s, Strip::Slash).len() > 0 ==> text::stripped_start(
            s,
            Strip::Slash,
        ).first() != '/',
    decreases s.len(),
{
    if s.len() > 0 && s.first() == '/' {
        lemma_no_leading_slash(s.drop_first());
    }
}

/// A path stands in the URL of a secret unchanged, behind the server's address
/// and one slash, but for the white space around it and the slashes before it.
pub proof fn law_path_stands_in_the_url(
    addr: Seq<char>,
    blank: Seq<char>,
    slashes: Seq<char>,
    path: Seq<char>,
    tail: Seq<char>,
)
    requires
        forall|k: int| 0 <= k < blank.len() ==> text::is_whitespace(#[trigger] blank[k]),
        forall|k: int| 0 <= k < slashes.len() ==> #[trigger] slashes[k] == '/',
        forall|k: int| 0 <= k < tail.len() ==> text::is_whitespace(#[trigger] tail[k]),
        path.len() > 0 ==> path.first() != '/' && !text::is_whitespace(path.last()),
        path.len() > 0 && slashes.len() == 0 ==> !text::is_whitespace(path.first()),
    ensures
        secret_url(addr, blank + (slashes + path) + tail) == addr + "/"@ + path,
{
    let core = slashes + path;
    if core.len() > 0 {
        if slashes.len() > 0 {
            assert(core.first() == slashes[0]);
        } else {
            assert(core =~= path);
        }
        if path.len() > 0 {
            assert(core.last() == path.last());
        } else {
            assert(core.last() == slashes[slashes.len() - 1]);
        }
    }
    text::law_trimming_takes_white_space_alone(blank, core, tail);
    lemma_slashes_before(slashes, path);
}

/// Slashes before a path that does not begin with one are cut, and no more.
proof fn lemma_slashes_before(slashes: Seq<char>, path: Seq<char>)
    requires
        forall|k: int| 0 <= k < slashes.len() ==> #[trigger] slashes[k] == '/',
        path.len() > 0 ==> path.first() != '/',
    ensures
        text::stripped_start(slashes + path, Strip::Slash) == path,
    decreases slashes.len(),
{
    if slashes.len() > 0 {
        let rest = slashes.drop_first();
        assert forall|k: int| 0 <= k < rest.len() implies #[trigger] rest[k] == '/' by {
            assert(slashes[k + 1] == '/');
        }
        assert((slashes + path).first() == slashes[0]);
        assert((slashes + path).drop_first() =~= rest + path);
        lemma_slashes_before(rest, path);
    } else {
        assert(slashes + path =~= path);
    }
}

/// A path with nothing to cut is fetched from the server's address, a slash
/// and the whole path: two such paths have two URLs.
pub proof fn law_paths_can_be_told_apart(addr: Seq<char>, path1: Seq<char>, path2: Seq<char>)
    requires
        path1.len() > 0 && path1.first() != '/' && !text::is_whitespace(path1.first())
            && !text::is_whitespace(path1.last()),
        path2.len() > 0 && path2.first() != '/' && !text::is_whitespace(path2.first())
            && !text::is_whitespace(path2.last()),
    ensures
        secret_url(addr, path1).len() == addr.len() + 1 + path1.len(),
        secret_url(addr, path1).take(addr.len() as int) == addr,
        secret_url(addr, path1)[addr.len() as int] == '/',
        secret_url(addr, path1).skip(addr.len() as int + 1) == path1,
        secret_url(addr, path1) == secret_url(addr, path2) ==> path1 == path2,
{
    let none = Seq::<char>::empty();
    reveal_strlit("/");
    law_path_stands_in_the_url(addr, none, none, path1, none);
    law_path_stands_in_the_url(addr, none, none, path2, none);
    assert(none + (none + path1) + none =~= path1);
    assert(none + (none + path2) + none =~= path2);
    assert(secret_url(addr, path1).take(addr.len() as int) =~= addr);
    assert(secret_url(addr, path1).skip(addr.len() as int + 1) =~= path1);
    assert(secret_url(addr, path2).skip(addr.len() as int + 1) =~= path2);
}

/// What is fetched is what stands under `data` in the object under `data` of
/// the reply, whatever other members stand beside either of them.
pub proof fn law_inner_data_is_fetched(
    fetched: Result<SecureValue, VaultClientErr>,
    body: Seq<char>,
    members: Map<Seq<char>, json::Json>,
    outer: Map<Seq<char>, json::Json>,
)
    requires
        json::json_parse(body) == Ok::<json::Json, Seq<char>>(json::Json::Object(members)),
        members.contains_key("data"@),
        members["data"@] == json::Json::Object(outer),
        outer.contains_key("data"@),
        fetched_from(fetched, body),
    ensures
        fetched matches Ok(value) && value.mirrors(outer["data"@]),
{
}

/// Where the reply has no object under `data`, or that object has nothing under
/// `data`, or the reply is no JSON object at all, nothing is fetched.
pub proof fn law_replies_of_another_shape_are_refused(
    fetched: Result<SecureValue, VaultClientErr>,
    body: Seq<char>,
)
    requires
        fetched_from(fetched, body),
        !({
            &&& json::json_parse(body) matches Ok(document)
            &&& document matches json::Json::Object(members)
            &&& members.contains_key("data"@)
            &&& members["data"@] matches json::Json::Object(outer)
            &&& outer.contains_key("data"@)
        }),
    ensures
        fetched matches Err(e) && e@ == error::ErrView::InvalidSecret(
            "secret of unexpected shape"@,
        ),
{
}

/// Members of the reply beside `data`, such as the identifier of the request
/// or the lease, do not change what is fetched, and neither do members beside
/// the inner `data`, such as the metadata.
pub proof fn law_other_members_do_not_matter(
    fetched: Result<SecureValue, VaultClientErr>,
    body1: Seq<char>,
    body2: Seq<char>,
    members: Map<Seq<char>, json::Json>,
    outer: Map<Seq<char>, json::Json>,
    key: Seq<char>,
    value: json::Json,
)
    requires
        key != "data"@,
        ({
            let one = json::json_parse(body1);
            let other = json::json_parse(body2);
            let nested = members.insert("data"@, json::Json::Object(outer));
            let changed = members.insert(
                "data"@,
                json::Json::Object(outer.insert(key, value)),
            );
            ||| {
                &&& one == Ok::<json::Json, Seq<char>>(json::Json::Object(members))
                &&& other == Ok::<json::Json, Seq<char>>(
                    json::Json::Object(members.insert(key, value)),
                )
            }
            ||| {
                &&& one == Ok::<json::Json, Seq<char>>(json::Json::Object(nested))
                &&& other == Ok::<json::Json, Seq<char>>(json::Json::Object(changed))
            }
        }),
    ensures
        fetched_from(fetched, body1) <==> fetched_from(fetched, body2),
{
}

/// Each member of a secret stands in its simple map under its own key: a
/// string and a number as the text that they are, a truth value as its word,
/// and anything else without a value. No key is added.
pub proof fn law_simple_map_keeps_texts(
    simple: Map<Seq<char>, Option<SecretString>>,
    members: Map<Seq<char>, SecureValue>,
    key: Seq<char>,
)
    requires
        simplifies(simple, members),
    ensures
        simple.contains_key(key) <==> members.contains_key(key),
        members.contains_key(key) ==> match members[key] {
            SecureValue::Secret(text) => simple[key] matches Some(s) && s@ == text@,
            SecureValue::PlainString(text) => simple[key] matches Some(s) && s@ == text@,
            SecureValue::Number(digits) => simple[key] matches Some(s) && s@ == digits@,
            SecureValue::Bool(true) => simple[key] matches Some(s) && s@ == "true"@,
            SecureValue::Bool(false) => simple[key] matches Some(s) && s@ == "false"@,
            _ => simple[key] is None,
        },
{
    assert(simple.contains_key(key) == simple.dom().contains(key));
    assert(members.contains_key(key) == members.dom().contains(key));
    if members.contains_key(key) {
        assert(views::option_view(simple[key]) == simple_text(members[key]));
    }
}

/// From the reply to the simple map: each string of the secret's object comes
/// out whole under its key, and so does the text of each number.
pub proof fn law_fetched_texts_reach_the_simple_map(
    fetched: Result<SecureValue, VaultClientErr>,
    simple: Map<Seq<char>, Option<SecretString>>,
    body: Seq<char>,
    members: Map<Seq<char>, json::Json>,
    outer: Map<Seq<char>, json::Json>,
    secret: Map<Seq<char>, json::Json>,
    key: Seq<char>,
)
    requires
        json::json_parse(body) == Ok::<json::Json, Seq<char>>(json::Json::Object(members)),
        members.contains_key("data"@),
        members["data"@] == json::Json::Object(outer),
        outer.contains_key("data"@),
        outer["data"@] == json::Json::Object(secret),
        fetched_from(fetched, body),
        fetched matches Ok(SecureValue::Object(own)) ==> simplifies(simple, own@),
    ensures
        simple.contains_key(key) <==> secret.contains_key(key),
        secret.contains_key(key) ==> match secret[key] {
            json::Json::Text(text) => simple[key] matches Some(s) && s@ == text,
            json::Json::Number(digits) => simple[key] matches Some(s) && s@ == digits,
            json::Json::Bool(true) => simple[key] matches Some(s) && s@ == "true"@,
            json::Json::Bool(false) => simple[key] matches Some(s) && s@ == "false"@,
            _ => simple[key] is None,
        },
{
    law_inner_data_is_fetched(fetched, body, members, outer);
    law_simple_map_of_document(simple, fetched->Ok_0, secret, key);
}

} // verus!
