use rusty_vault::client::{TOKEN_FILE, TOKEN_FILE_MODE};
use rusty_vault::http::{is_success, HttpMethod};
use rusty_vault::save::{SaveEvent, SaveStage};
use rusty_vault::secret::SecretString;
use rusty_vault::{env_secret_and_remove, VaultClient, VaultClientErr};

#[test]
fn default_client_starts_with_empty_cached_token() {
    let vc = VaultClient::default(None);
    assert!(vc.token().is_none());
}

#[test]
fn the_address_has_a_default_and_loses_its_slashes() {
    assert_eq!(VaultClient::default(None).vault_addr(), "http://localhost:8200");
    for given in ["https://vault:8200", "https://vault:8200/", "https://vault:8200///"] {
        let vc = VaultClient::default(Some(String::from(given)));
        assert_eq!(vc.vault_addr(), "https://vault:8200");
    }
    assert_eq!(VaultClient::default(Some(String::new())).vault_addr(), "");
}

#[test]
fn lookup_carries_the_token() {
    let vc = VaultClient::default(Some(String::from("https://vault/")));
    let request = vc.lookup_self(&SecretString::from_plain("s.abc"));
    assert_eq!(request.method, HttpMethod::Get);
    assert_eq!(request.url, "https://vault/v1/auth/token/lookup-self");
    assert_eq!(request.vault_token.unwrap().expose_secret(), "s.abc");
    assert_eq!(request.content_type, None);
    assert!(request.body.is_none());
}

#[test]
fn tokens_are_replaced_and_discarded() {
    let mut vc = VaultClient::default(None);
    vc.replace_token(&SecretString::from_plain("one"));
    vc.replace_token(&SecretString::from_plain("two"));
    assert_eq!(vc.token().unwrap().expose_secret(), "two");
    vc.discard_token();
    assert!(vc.token().is_none());
}

#[test]
fn the_token_of_the_environment_is_trimmed() {
    let token = VaultClient::env_token(Some(String::from(" s.env\n"))).unwrap();
    assert_eq!(token.expose_secret(), "s.env");
    assert!(VaultClient::env_token(None).is_none());
    assert_eq!(VaultClient::env_token(Some(String::new())).unwrap().expose_secret(), "");
}

#[test]
fn a_secret_of_the_environment_is_taken_whole_and_its_variable_removed() {
    let taken = env_secret_and_remove("DB_PASSWORD", Some(String::from(" p w \n"))).unwrap();
    assert_eq!(taken.secret.expose_secret(), " p w \n");
    assert_eq!(taken.remove, "DB_PASSWORD");
    assert!(env_secret_and_remove("DB_PASSWORD", None).is_none());
}

#[test]
fn success_is_the_two_hundreds() {
    assert!(!is_success(199));
    assert!(is_success(200));
    assert!(is_success(204));
    assert!(is_success(299));
    assert!(!is_success(300));
    assert!(!is_success(403));
}

#[test]
fn a_saved_token_is_private() {
    let mut vc = VaultClient::default(None);
    vc.replace_token(&SecretString::from_plain("s.abc"));
    let stage = vc.save_token(SaveStage::FindHome, SaveEvent::Home(true));
    let SaveStage::Write(text) = &stage else {
        panic!("the token is to be written");
    };
    assert_eq!(text.expose_secret(), "s.abc");
    let stage = vc.save_token(stage, SaveEvent::Written(true));
    assert!(matches!(stage, SaveStage::Restrict(0o600)));
    let stage = vc.save_token(stage, SaveEvent::Restricted);
    assert!(matches!(stage, SaveStage::Finished));
    assert_eq!(TOKEN_FILE, ".vault-token");
    assert_eq!(TOKEN_FILE_MODE, 0o600);
}

#[test]
fn saving_gives_up_quietly() {
    let mut vc = VaultClient::default(None);
    let stage = vc.save_token(SaveStage::FindHome, SaveEvent::Home(true));
    assert!(matches!(stage, SaveStage::Finished));
    vc.replace_token(&SecretString::from_plain("s.abc"));
    let stage = vc.save_token(SaveStage::FindHome, SaveEvent::Home(false));
    assert!(matches!(stage, SaveStage::Finished));
    let stage = vc.save_token(SaveStage::FindHome, SaveEvent::Home(true));
    let stage = vc.save_token(stage, SaveEvent::Restricted);
    assert!(matches!(stage, SaveStage::Write(_)));
    let stage = vc.save_token(stage, SaveEvent::Written(false));
    assert!(matches!(stage, SaveStage::Finished));
}

#[test]
fn errors_say_what_went_wrong() {
    let text = || String::from("why");
    assert_eq!(VaultClientErr::Http(text()).message(), "http error: why");
    assert_eq!(VaultClientErr::Json(text()).message(), "json error: why");
    assert_eq!(VaultClientErr::AddrParse(text()).message(), "json error: why");
    assert_eq!(VaultClientErr::Io(text()).message(), "io error: why");
    assert_eq!(VaultClientErr::MissingField("why").message(), "missing callback field: why");
    assert_eq!(VaultClientErr::InvalidToken(text()).message(), "invalid token: why");
    assert_eq!(VaultClientErr::InvalidSecret("why").message(), "invalid secret: why");
}

#[test]
fn a_secret_of_the_environment_is_handed_out_once() {
    let mut env = std::collections::HashMap::new();
    env.insert(String::from("A"), String::from("secret a"));
    env.insert(String::from("B"), String::from("secret b"));
    let mut handed = Vec::new();
    for name in ["B", "A", "B", "C", "A", "A"] {
        let taken = env_secret_and_remove(name, env.get(name).cloned());
        if let Some(found) = &taken {
            env.remove(&found.remove);
        }
        handed.push(taken.map(|found| String::from(found.secret.expose_secret())));
    }
    let expected = [Some("secret b"), Some("secret a"), None, None, None, None];
    assert_eq!(handed, expected.map(|secret| secret.map(String::from)));
    assert!(env.is_empty());
}

#[test]
fn a_lookup_without_a_reply_is_an_error_and_no_refusal() {
    assert!(matches!(VaultClient::lookup_outcome(Ok(200)), Ok(true)));
    assert!(matches!(VaultClient::lookup_outcome(Ok(204)), Ok(true)));
    assert!(matches!(VaultClient::lookup_outcome(Ok(403)), Ok(false)));
    assert!(matches!(VaultClient::lookup_outcome(Ok(302)), Ok(false)));
    let lost = VaultClient::lookup_outcome(Err(String::from("no route")));
    assert!(matches!(lost, Err(VaultClientErr::Http(why)) if why == "no route"));
}
