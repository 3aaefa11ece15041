use rusty_vault::http::{HttpMethod, HttpRequest};
use rusty_vault::kubernetes::{K8sLoginEvent, K8sLoginStage, TokenFile};
use rusty_vault::secret::SecretString;
use rusty_vault::secure_value::SecureValue;
use rusty_vault::string_map::StringMap;
use rusty_vault::{VaultClient, VaultClientErr};

#[test]
fn parse_kubernetes_login_token_extracts_nested_token() {
    let body = SecureValue::from_json(r#"{"auth":{"client_token":"s.yep-this-is-a-token"}}"#)
        .expect("valid json");

    let token = VaultClient::parse_kubernetes_login_token(body).expect("token should be parsed");
    assert_eq!(token.expose_secret(), "s.yep-this-is-a-token");
}

#[test]
fn parse_kubernetes_login_token_rejects_missing_token() {
    let body = SecureValue::from_json(r#"{"auth":{}}"#).expect("valid json");

    let err = VaultClient::parse_kubernetes_login_token(body)
        .expect_err("should fail when token missing");
    assert!(matches!(
        err,
        VaultClientErr::MissingField("auth.client_token missing in Kubernetes login response")
    ));
}

#[test]
fn only_strings_are_login_tokens() {
    for text in [
        "null",
        "[]",
        "{}",
        r#"{"auth":null}"#,
        r#"{"auth":"x"}"#,
        r#"{"auth":{"client_token":5}}"#,
        r#"{"auth":{"client_token":null}}"#,
        r#"{"client_token":"x"}"#,
    ] {
        let body = SecureValue::from_json(text).expect("valid json");
        assert!(matches!(
            VaultClient::parse_kubernetes_login_token(body),
            Err(VaultClientErr::MissingField(_))
        ));
    }
    let mut auth = StringMap::new();
    auth.insert(
        String::from("client_token"),
        SecureValue::PlainString(String::from("s.plain")),
    );
    let mut root = StringMap::new();
    root.insert(String::from("auth"), SecureValue::Object(auth));
    let token = VaultClient::parse_kubernetes_login_token(SecureValue::Object(root)).unwrap();
    assert_eq!(token.expose_secret(), "s.plain");
}

fn client() -> VaultClient {
    VaultClient::default(Some(String::from("https://vault/")))
}

fn begin(role: Option<&str>, auth_path: Option<&str>, token_path: Option<&str>) -> K8sLoginStage {
    client().kubernetes_login(
        K8sLoginStage::Settings,
        K8sLoginEvent::Settings {
            role: role.map(String::from),
            auth_path: auth_path.map(String::from),
            token_path: token_path.map(String::from),
        },
    )
}

fn request_of(stage: K8sLoginStage) -> HttpRequest {
    match stage {
        K8sLoginStage::Send(request) => request,
        other => panic!("a request is due, not {:?}", other),
    }
}

fn error_of(stage: K8sLoginStage) -> String {
    match stage {
        K8sLoginStage::Finished(Err(error)) => error.message(),
        other => panic!("an error is due, not {:?}", other),
    }
}

#[test]
fn settings_have_defaults_but_for_the_role() {
    let K8sLoginStage::LoadToken { role, auth_path, path } = begin(Some("app"), None, None) else {
        panic!("the token is to be loaded");
    };
    assert_eq!(role, "app");
    assert_eq!(auth_path, "kubernetes");
    assert_eq!(path, "/var/run/secrets/kubernetes.io/serviceaccount/token");

    let K8sLoginStage::LoadToken { role, auth_path, path } =
        begin(Some("app"), Some("/k8s/prod/"), Some("/tmp/jwt"))
    else {
        panic!("the token is to be loaded");
    };
    assert_eq!(role, "app");
    assert_eq!(auth_path, "/k8s/prod/");
    assert_eq!(path, "/tmp/jwt");

    assert_eq!(
        error_of(begin(None, Some("x"), Some("y"))),
        "invalid token: VAULT_K8S_ROLE env var is required for Kubernetes login"
    );
}

#[test]
fn the_login_request_carries_token_and_role() {
    let stage = begin(Some("my \"app\""), Some("/k8s/prod//"), Some("/tmp/jwt"));
    let file = TokenFile::Contents(String::from("ey.jwt\n"));
    let request = request_of(client().kubernetes_login(stage, K8sLoginEvent::Loaded(file)));
    assert_eq!(request.method, HttpMethod::Post);
    assert_eq!(request.url, "https://vault/v1/auth/k8s/prod/login");
    assert_eq!(request.content_type, Some("application/json"));
    assert!(request.vault_token.is_none());
    assert_eq!(request.body.unwrap().expose_secret(), r#"{"jwt":"ey.jwt","role":"my \"app\""}"#);
}

#[test]
fn a_token_file_that_is_no_use_ends_the_login() {
    let stage = begin(Some("app"), None, Some("/tmp/jwt"));
    let stage = client().kubernetes_login(stage, K8sLoginEvent::Loaded(TokenFile::Missing));
    assert_eq!(
        error_of(stage),
        "invalid token: Kubernetes service account token file not found at /tmp/jwt"
    );
    let stage = begin(Some("app"), None, Some("/tmp/jwt"));
    let file = TokenFile::Unreadable(String::from("permission denied"));
    let stage = client().kubernetes_login(stage, K8sLoginEvent::Loaded(file));
    assert_eq!(error_of(stage), "io error: permission denied");

    let jwt = VaultClient::load_k8s_token("p", TokenFile::Contents(String::from(" a b ")));
    assert_eq!(jwt.unwrap().expose_secret(), "a b");
}

fn sent() -> K8sLoginStage {
    let stage = begin(Some("app"), None, None);
    let file = TokenFile::Contents(String::from("jwt"));
    client().kubernetes_login(stage, K8sLoginEvent::Loaded(file))
}

#[test]
fn the_server_decides_about_the_login() {
    let stage = client().kubernetes_login(sent(), K8sLoginEvent::Replied(Ok(403)));
    assert_eq!(error_of(stage), "invalid token: Kubernetes login request failed");

    let failure = K8sLoginEvent::Replied(Err(String::from("no route")));
    assert_eq!(error_of(client().kubernetes_login(sent(), failure)), "http error: no route");

    let stage = client().kubernetes_login(sent(), K8sLoginEvent::Replied(Ok(200)));
    assert!(matches!(stage, K8sLoginStage::ReadBody));
}

fn token_from(body: Result<&str, &str>) -> Result<SecretString, VaultClientErr> {
    let event = K8sLoginEvent::Body(body.map(String::from).map_err(String::from));
    match client().kubernetes_login(K8sLoginStage::ReadBody, event) {
        K8sLoginStage::Finished(result) => result,
        other => panic!("the end is due, not {:?}", other),
    }
}

#[test]
fn the_reply_to_a_login_holds_the_token() {
    let token = token_from(Ok(r#"{"auth":{"client_token":"s.issued","ttl":60}}"#)).unwrap();
    assert_eq!(token.expose_secret(), "s.issued");
    assert!(matches!(token_from(Ok("{}")), Err(VaultClientErr::MissingField(_))));
    assert!(matches!(token_from(Ok("<html>")), Err(VaultClientErr::Json(_))));
    assert!(matches!(token_from(Err("reset")), Err(VaultClientErr::Http(m)) if m == "reset"));
}

#[test]
fn outcomes_of_another_stage_leave_the_login_where_it_is() {
    let stage = client().kubernetes_login(sent(), K8sLoginEvent::Body(Ok(String::from("{}"))));
    assert!(matches!(stage, K8sLoginStage::Send(_)));
}

#[test]
fn a_whole_login_gives_the_issued_token() {
    let vc = client();
    let stage = begin(Some("app"), None, Some("/tmp/jwt"));
    let file = TokenFile::Contents(String::from("\tey.jwt\n"));
    let stage = vc.kubernetes_login(stage, K8sLoginEvent::Loaded(file));
    let K8sLoginStage::Send(request) = &stage else {
        panic!("a request is due");
    };
    assert_eq!(request.url, "https://vault/v1/auth/kubernetes/login");
    let body = request.body.as_ref().unwrap();
    assert_eq!(body.expose_secret(), r#"{"jwt":"ey.jwt","role":"app"}"#);
    assert!(!format!("{:?}", stage).contains("ey.jwt"));
    let stage = vc.kubernetes_login(stage, K8sLoginEvent::Replied(Ok(200)));
    let body = String::from(r#"{"auth":{"client_token":"s.issued"}}"#);
    let stage = vc.kubernetes_login(stage, K8sLoginEvent::Body(Ok(body)));
    let K8sLoginStage::Finished(Ok(token)) = stage else {
        panic!("a token is due");
    };
    assert_eq!(token.expose_secret(), "s.issued");
}
