use rusty_vault::secure_value::SecureValue;
use rusty_vault::string_map::StringMap;
use rusty_vault::VaultClientErr;

fn parsed(text: &str) -> SecureValue {
    SecureValue::from_json(text).expect("valid json")
}

#[test]
fn every_kind_of_value_is_parsed() {
    assert!(matches!(parsed("null"), SecureValue::Null));
    assert!(matches!(parsed(" true "), SecureValue::Bool(true)));
    assert!(matches!(parsed("false"), SecureValue::Bool(false)));
    let SecureValue::Secret(text) = parsed("\"a\\n\\u00e9\\\"\"") else {
        panic!("a string is a secret");
    };
    assert_eq!(text.expose_secret(), "a\n\u{e9}\"");
}

#[test]
fn numbers_keep_their_text() {
    for (text, written) in [
        ("0", "0"),
        ("-17", "-17"),
        ("18446744073709551615", "18446744073709551615"),
        ("1.50", "1.5"),
        ("2.0", "2.0"),
    ] {
        let SecureValue::Number(digits) = parsed(text) else {
            panic!("a number is a number");
        };
        assert_eq!(digits, written);
    }
}

#[test]
fn nested_values_are_parsed() {
    let SecureValue::Object(root) = parsed(r#"{"a":[1,"x",null,{"b":true}],"c":{}}"#) else {
        panic!("an object is an object");
    };
    let Some(SecureValue::Array(items)) = root.get("a") else {
        panic!("an array is an array");
    };
    assert_eq!(items.len(), 4);
    assert!(matches!(&items[0], SecureValue::Number(n) if n == "1"));
    assert!(matches!(&items[1], SecureValue::Secret(s) if s.expose_secret() == "x"));
    assert!(matches!(&items[2], SecureValue::Null));
    let SecureValue::Object(inner) = &items[3] else {
        panic!("an object in an array is an object");
    };
    assert!(matches!(inner.get("b"), Some(SecureValue::Bool(true))));
    assert!(matches!(root.get("c"), Some(SecureValue::Object(_))));
    assert!(root.get("d").is_none());
}

#[test]
fn the_last_of_two_equal_keys_counts() {
    let SecureValue::Object(root) = parsed(r#"{"k":1,"k":2}"#) else {
        panic!("an object is an object");
    };
    assert!(matches!(root.get("k"), Some(SecureValue::Number(n)) if n == "2"));
    assert_eq!(root.into_entries().len(), 1);
}

#[test]
fn what_is_no_json_is_an_error() {
    for text in ["", "{", "{\"a\":}", "nul", "1 2"] {
        let Err(VaultClientErr::Json(message)) = SecureValue::from_json(text) else {
            panic!("{:?} is no json", text);
        };
        let expected = serde_json::from_str::<serde_json::Value>(text).unwrap_err();
        assert_eq!(message, expected.to_string());
    }
}

#[test]
fn secrets_in_values_are_never_shown() {
    let shown = format!("{:?}", parsed(r#"{"user":"bob","password":"hunter2"}"#));
    assert!(!shown.contains("hunter2"));
    assert!(!shown.contains("bob"));
}

#[test]
fn maps_hold_one_value_for_each_key() {
    let mut map: StringMap<u32> = StringMap::new();
    assert!(map.get("a").is_none());
    map.insert(String::from("a"), 1);
    map.insert(String::from("b"), 2);
    map.insert(String::from("a"), 3);
    assert_eq!(map.get("a"), Some(&3));
    assert_eq!(map.get("b"), Some(&2));
    assert_eq!(map.remove("a"), Some(3));
    assert_eq!(map.remove("a"), None);
    assert_eq!(map.get("b"), Some(&2));
    assert_eq!(map.into_entries(), vec![(String::from("b"), 2)]);
}

#[test]
fn different_documents_give_different_values() {
    let texts = ["null", "1", "1.0", "\"1\"", "true", "[1]", "[]", "{}", "{\"a\":1}"];
    let shown: Vec<String> = texts
        .iter()
        .map(|text| match parsed(text) {
            SecureValue::Secret(secret) => format!("secret {}", secret.expose_secret()),
            other => format!("{:?}", other),
        })
        .collect();
    for i in 0..shown.len() {
        for j in 0..i {
            assert_ne!(shown[i], shown[j]);
        }
    }
}
