use rusty_vault::http::HttpMethod;
use rusty_vault::oidc::{
    ListenOutcome, OauthExchangeParams, OidcEvent, OidcStage, OIDC_CALLBACK_PATH,
    OIDC_CALLBACK_PORT, OIDC_HTML, OIDC_LISTEN_ADDR, OIDC_REDIRECT_URI,
};
use rusty_vault::VaultClient;
use serde_json::Value;

fn step(stage: OidcStage, event: OidcEvent) -> OidcStage {
    VaultClient::default(Some(String::from("https://vault"))).oidc_login(true, stage, event)
}

fn reply(body: &str) -> OidcEvent {
    OidcEvent::Reply(Ok(String::from(body)))
}

fn error_of(stage: OidcStage) -> String {
    match stage {
        OidcStage::Finished(Err(error)) => error.message(),
        _ => panic!("an error is due"),
    }
}

fn asked() -> OidcStage {
    step(OidcStage::Begin, OidcEvent::Start)
}

fn params(state: Option<&str>, code: Option<&str>) -> OauthExchangeParams {
    OauthExchangeParams {
        state: state.map(String::from),
        nonce: None,
        code: code.map(String::from),
    }
}

fn exchanging() -> OidcStage {
    step(OidcStage::AwaitCallback, OidcEvent::Callback(Ok(params(Some("st"), Some("co")))))
}

fn token_from(body: &str) -> String {
    match step(exchanging(), reply(body)) {
        OidcStage::Finished(Ok(token)) => token,
        _ => panic!("a token is due"),
    }
}

#[test]
fn the_login_page_is_asked_for() {
    let OidcStage::AuthUrl(request) = asked() else {
        panic!("the login page is to be asked for");
    };
    assert_eq!(request.method, HttpMethod::Post);
    assert_eq!(request.url, "https://vault/v1/auth/oidc/oidc/auth_url");
    assert!(request.vault_token.is_none());
    assert_eq!(request.content_type, None);
    assert_eq!(
        request.body.unwrap().expose_secret(),
        r#"{"redirect_uri":"http://localhost:8250/oidc/callback","role":"user"}"#
    );
}

#[test]
fn the_callback_address_is_consistent() {
    assert_eq!(OIDC_LISTEN_ADDR, format!("127.0.0.1:{}", OIDC_CALLBACK_PORT));
    assert_eq!(
        OIDC_REDIRECT_URI,
        format!("http://localhost:{}{}", OIDC_CALLBACK_PORT, OIDC_CALLBACK_PATH)
    );
}

#[test]
fn a_login_that_is_not_allowed_does_not_begin() {
    let vc = VaultClient::default(None);
    let stage = vc.oidc_login(false, OidcStage::Begin, OidcEvent::Start);
    assert_eq!(error_of(stage), "invalid token: oidc_callback feature is disabled");
}

#[test]
fn the_whole_login_gives_a_token() {
    let url = "https://idp/authorize?client_id=vault&state=st";
    let stage = step(asked(), reply(&format!(r#"{{"data":{{"auth_url":"{}"}}}}"#, url)));
    let OidcStage::Listen { addr, target_url } = &stage else {
        panic!("the callback is to be listened for");
    };
    assert_eq!(addr, "127.0.0.1:8250");
    assert_eq!(target_url, url);
    let stage = step(stage, OidcEvent::Listening(ListenOutcome::Ready));
    assert!(matches!(&stage, OidcStage::OpenBrowser(target) if target == url));
    let stage = step(stage, OidcEvent::Browser(true));
    assert!(matches!(stage, OidcStage::AwaitCallback));
    let stage = step(stage, OidcEvent::Callback(Ok(params(Some("st"), Some("co")))));
    let OidcStage::Exchange(request) = &stage else {
        panic!("the code is to be exchanged");
    };
    assert_eq!(request.method, HttpMethod::Get);
    assert_eq!(request.url, "https://vault/v1/auth/oidc/oidc/callback?state=st&code=co");
    assert!(request.vault_token.is_none());
    assert!(request.body.is_none());
    assert_eq!(token_from(r#"{"auth":{"client_token":"s.oidc"}}"#), "s.oidc");
}

#[test]
fn the_token_comes_out_as_the_server_issued_it() {
    assert_eq!(token_from(r#"{"auth":{"client_token":"a\"b\\c\u00e9"}}"#), "a\"b\\c\u{e9}");
    assert_eq!(token_from(r#"{"auth":{"client_token":"null"}}"#), "null");
    assert_eq!(token_from(r#"{"auth":{"client_token":""}}"#), "");
}

#[test]
fn a_reply_without_a_token_is_an_error() {
    for body in [
        "{}",
        "[1]",
        "null",
        r#"{"errors":["denied"]}"#,
        r#"{"auth":"x"}"#,
        r#"{"auth":{}}"#,
        r#"{"auth":{"client_token":null}}"#,
        r#"{"auth":{"client_token":7}}"#,
        r#"{"auth":{"client_token":["x"]}}"#,
    ] {
        assert_eq!(
            error_of(step(exchanging(), reply(body))),
            "missing callback field: auth.client_token missing in OIDC login response"
        );
    }
}

fn target_from(body: &str) -> String {
    match step(asked(), reply(body)) {
        OidcStage::Listen { target_url, .. } => target_url,
        _ => panic!("a login page is due"),
    }
}

#[test]
fn the_login_page_is_written_and_loses_its_quotes() {
    assert_eq!(target_from(r#"{"data":{"auth_url":"a\"b\\c"}}"#), r"a\b\\c");
    assert_eq!(target_from(r#"{"data":{"auth_url":7}}"#), "7");
    assert_eq!(target_from(r#"{"data":{"auth_url":{"b":"x","a":[1,true]}}}"#), "{a:[1,true],b:x}");
    assert_eq!(target_from(r#"{"data":{}}"#), "null");
}

#[test]
fn failures_end_the_login() {
    let failure = || OidcEvent::Reply(Err(String::from("no route")));
    assert_eq!(error_of(step(asked(), failure())), "http error: no route");
    assert!(error_of(step(asked(), reply("<html>"))).starts_with("json error: "));
    let listen = || OidcStage::Listen { addr: String::new(), target_url: String::from("u") };
    let bad = ListenOutcome::BadAddress(String::from("bad"));
    assert_eq!(error_of(step(listen(), OidcEvent::Listening(bad))), "json error: bad");
    let busy = ListenOutcome::Failed(String::from("in use"));
    assert_eq!(error_of(step(listen(), OidcEvent::Listening(busy))), "io error: in use");
    let browser = OidcStage::OpenBrowser(String::from("u"));
    assert_eq!(
        error_of(step(browser, OidcEvent::Browser(false))),
        "invalid token: failed to open browser for OIDC login"
    );
    let down = OidcEvent::Callback(Err(String::from("down")));
    assert_eq!(error_of(step(OidcStage::AwaitCallback, down)), "io error: down");
    assert_eq!(error_of(step(exchanging(), failure())), "http error: no route");
    assert!(error_of(step(exchanging(), reply("{"))).starts_with("json error: "));
}

#[test]
fn a_callback_needs_a_state_and_a_code() {
    let came = |p| step(OidcStage::AwaitCallback, OidcEvent::Callback(Ok(p)));
    assert_eq!(
        error_of(came(params(None, None))),
        "missing callback field: missing state in callback"
    );
    assert_eq!(
        error_of(came(params(None, Some("c")))),
        "missing callback field: missing state in callback"
    );
    assert_eq!(
        error_of(came(params(Some("s"), None))),
        "missing callback field: missing code in callback"
    );
}

#[test]
fn the_handler_notes_the_last_callback() {
    let mut noted = OauthExchangeParams::default();
    assert!(noted.state.is_none() && noted.nonce.is_none() && noted.code.is_none());
    let first = params(Some("a"), Some("b"));
    assert_eq!(VaultClient::oidc_callback_get_handler(&mut noted, first), OIDC_HTML);
    let second = OauthExchangeParams {
        state: None,
        nonce: Some(String::from("n")),
        code: Some(String::from("c")),
    };
    VaultClient::oidc_callback_get_handler(&mut noted, second);
    assert_eq!(noted.state, None);
    assert_eq!(noted.nonce.as_deref(), Some("n"));
    assert_eq!(noted.code.as_deref(), Some("c"));
    assert!(OIDC_HTML.contains("Authentication successful, you can close the browser now."));
}

#[test]
fn a_field_of_a_parsed_document_is_found() {
    let inner: serde_json::Map<String, Value> =
        [(String::from("auth_url"), Value::from("https://idp/?a=b&c=d"))].into_iter().collect();
    let outer: serde_json::Map<String, Value> =
        [(String::from("data"), Value::Object(inner))].into_iter().collect();
    let document = Value::Object(outer);
    let field = |outer, inner| VaultClient::field_of_document(&document, outer, inner);
    assert_eq!(field("data", "auth_url"), "https://idp/?a=b&c=d");
    assert_eq!(field("data", "other"), "null");
    assert_eq!(field("auth", "client_token"), "null");
}
