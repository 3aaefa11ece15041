use rusty_vault::fetch::{FetchEvent, FetchStage};
use rusty_vault::http::{HttpMethod, HttpRequest};
use rusty_vault::secret::SecretString;
use rusty_vault::secure_value::SecureValue;
use rusty_vault::string_map::StringMap;
use rusty_vault::{VaultClient, VaultClientErr};

fn client() -> VaultClient {
    let mut vc = VaultClient::default(Some(String::from("https://vault/")));
    vc.replace_token(&SecretString::from_plain("s.abc"));
    vc
}

fn request_for(path: &str) -> HttpRequest {
    match client().fetch_secret(FetchStage::Begin(String::from(path)), FetchEvent::Start) {
        FetchStage::Send(request) => request,
        other => panic!("a request is due, not {:?}", other),
    }
}

fn fetched(reply: Result<&str, &str>) -> Result<SecureValue, VaultClientErr> {
    let stage = FetchStage::Send(request_for("v1/kv/data/app"));
    let event = FetchEvent::Reply(reply.map(String::from).map_err(String::from));
    match client().fetch_secret(stage, event) {
        FetchStage::Finished(result) => result,
        other => panic!("the end is due, not {:?}", other),
    }
}

#[test]
fn the_request_carries_the_token_in_use() {
    let request = request_for("v1/my-namespace/kv2/data/my-app/prod");
    assert_eq!(request.method, HttpMethod::Get);
    assert_eq!(request.url, "https://vault/v1/my-namespace/kv2/data/my-app/prod");
    assert_eq!(request.vault_token.unwrap().expose_secret(), "s.abc");
    assert_eq!(request.content_type, None);
    assert!(request.body.is_none());
}

#[test]
fn slashes_and_spaces_before_the_path_do_not_count() {
    for path in ["v1/a/b", "/v1/a/b", "///v1/a/b", "  /v1/a/b \n"] {
        assert_eq!(request_for(path).url, "https://vault/v1/a/b");
    }
    assert_eq!(request_for("v1/a/").url, "https://vault/v1/a/");
    assert_eq!(request_for("/ v1/a").url, "https://vault/ v1/a");
}

#[test]
fn nothing_is_fetched_without_a_token() {
    let vc = VaultClient::default(None);
    let stage = vc.fetch_secret(FetchStage::Begin(String::from("v1/a")), FetchEvent::Start);
    let FetchStage::Finished(Err(error)) = stage else {
        panic!("an error is due");
    };
    assert!(matches!(&error, VaultClientErr::InvalidToken(why) if why == "invalid token"));
}

#[test]
fn the_secret_is_the_inner_data() {
    let reply = r#"{"lease":"","data":{"data":{"quux":"abc123"},"metadata":{"version":2}}}"#;
    let SecureValue::Object(secret) = fetched(Ok(reply)).unwrap() else {
        panic!("an object is due");
    };
    let Some(SecureValue::Secret(value)) = secret.get("quux") else {
        panic!("a secret is due");
    };
    assert_eq!(value.expose_secret(), "abc123");
    assert!(matches!(fetched(Ok(r#"{"data":{"data":5}}"#)), Ok(SecureValue::Number(n)) if n == "5"));
    assert!(matches!(fetched(Ok(r#"{"data":{"data":null}}"#)), Ok(SecureValue::Null)));
}

#[test]
fn other_replies_hold_no_secret() {
    for reply in [
        "",
        "<html>",
        "null",
        "[]",
        "{}",
        r#"{"errors":["permission denied"]}"#,
        r#"{"data":{}}"#,
        r#"{"data":[{"data":1}]}"#,
        r#"{"data":"x"}"#,
    ] {
        assert!(matches!(
            fetched(Ok(reply)),
            Err(VaultClientErr::InvalidSecret("secret of unexpected shape"))
        ));
    }
    assert!(matches!(fetched(Err("reset")), Err(VaultClientErr::Http(why)) if why == "reset"));
}

fn simple(value: Result<SecureValue, VaultClientErr>) -> StringMap<Option<SecretString>> {
    VaultClient::fetch_secret_as_simple_map(value).unwrap()
}

fn text<'a>(map: &'a StringMap<Option<SecretString>>, key: &str) -> Option<&'a str> {
    map.get(key).unwrap().as_ref().map(|secret| secret.expose_secret())
}

#[test]
fn scalars_become_strings() {
    let reply = r#"{"data":{"data":{
        "password":"hunter2","port":5432,"ratio":0.5,"tls":true,"debug":false,
        "none":null,"hosts":["a","b"],"nested":{"a":"b"}}}}"#;
    let map = simple(fetched(Ok(reply)));
    assert_eq!(text(&map, "password"), Some("hunter2"));
    assert_eq!(text(&map, "port"), Some("5432"));
    assert_eq!(text(&map, "ratio"), Some("0.5"));
    assert_eq!(text(&map, "tls"), Some("true"));
    assert_eq!(text(&map, "debug"), Some("false"));
    assert_eq!(text(&map, "none"), None);
    assert_eq!(text(&map, "hosts"), None);
    assert_eq!(text(&map, "nested"), None);
    assert!(map.get("absent").is_none());
    assert_eq!(map.into_entries().len(), 8);
}

#[test]
fn plain_strings_are_strings() {
    let mut members = StringMap::new();
    members.insert(String::from("k"), SecureValue::PlainString(String::from("v")));
    let map = simple(Ok(SecureValue::Object(members)));
    assert_eq!(text(&map, "k"), Some("v"));
}

#[test]
fn only_objects_become_maps() {
    for value in [
        SecureValue::Null,
        SecureValue::Bool(true),
        SecureValue::Array(Vec::new()),
        SecureValue::Secret(SecretString::from_plain("x")),
    ] {
        assert!(matches!(
            VaultClient::fetch_secret_as_simple_map(Ok(value)),
            Err(VaultClientErr::InvalidSecret("secret value is not a string"))
        ));
    }
    assert!(matches!(
        VaultClient::fetch_secret_as_simple_map(Err(VaultClientErr::MissingField("f"))),
        Err(VaultClientErr::MissingField("f"))
    ));
    assert_eq!(simple(Ok(SecureValue::Object(StringMap::new()))).into_entries().len(), 0);
}
