use rusty_vault::secret::{seal, seal_trimmed, SecretString};
use rusty_vault::text::{strip_both, strip_end, strip_start, trim, unquote, Strip};

#[test]
fn whitespace_is_what_std_takes_for_whitespace() {
    for code in 0u32..=0x10FFFF {
        if let Some(c) = char::from_u32(code) {
            assert_eq!(Strip::Whitespace.matches(c), c.is_whitespace(), "U+{:04X}", code);
            assert_eq!(Strip::Slash.matches(c), c == '/');
        }
    }
}

#[test]
fn trim_agrees_with_std() {
    let samples = [
        "",
        " ",
        "token",
        "  token\n",
        "\t\u{a0}to ken\u{3000}\r\n",
        "\u{2028}\u{e9}t\u{e9}\u{205f}",
        "\u{1f511} key \u{1f511}",
        "\u{200b}x\u{200b}",
    ];
    for s in samples {
        assert_eq!(trim(s), s.trim());
    }
}

#[test]
fn slashes_are_stripped_where_asked() {
    assert_eq!(strip_start("//a/b//", Strip::Slash), "a/b//");
    assert_eq!(strip_end("//a/b//", Strip::Slash), "//a/b");
    assert_eq!(strip_both("//a/b//", Strip::Slash), "a/b");
    assert_eq!(strip_both("////", Strip::Slash), "");
    assert_eq!(strip_both("", Strip::Slash), "");
}

#[test]
fn stripping_twice_is_stripping_once() {
    let once = strip_both(" \n x y \t", Strip::Whitespace);
    assert_eq!(once, "x y");
    assert_eq!(strip_both(once, Strip::Whitespace), once);
}

#[test]
fn unquote_takes_out_every_quote() {
    assert_eq!(unquote("\"s.token\""), "s.token");
    assert_eq!(unquote("a\"b\"\"c"), "abc");
    assert_eq!(unquote("null"), "null");
    assert_eq!(unquote("\"\""), "");
    assert_eq!(unquote("\u{e9}\"\u{1f511}"), "\u{e9}\u{1f511}");
}

#[test]
fn sealing_moves_the_text_and_wipes_the_plain_copy() {
    let mut plain = String::from(" hunter2 \n");
    let secret = seal(&mut plain);
    assert_eq!(secret.expose_secret(), " hunter2 \n");
    assert_eq!(plain, "");

    let mut plain = String::from(" hunter2 \n");
    let secret = seal_trimmed(&mut plain);
    assert_eq!(secret.expose_secret(), "hunter2");
    assert_eq!(plain, "");
}

#[test]
fn secrets_are_copied_and_never_shown() {
    let secret = SecretString::from_owned(String::from("hunter2"));
    let copy = secret.clone();
    drop(secret);
    assert_eq!(copy.expose_secret(), "hunter2");
    assert_eq!(SecretString::from_plain("x").expose_secret(), "x");
    let shown = format!("{:?}", copy);
    assert!(shown.contains("REDACTED"));
    assert!(!shown.contains("hunter2"));
}
