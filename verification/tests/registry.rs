use http_mailer::registry::parse_key_val;

const HASH: &str = "2bb80d537b1da3e38bd30361aa855686bde0eacd7162fef6a25fe97bf527a25b";

#[test]
fn well_formed_entry_is_accepted() {
    let arg = format!("alice@x.com={HASH}");
    let (k, v) = parse_key_val(&arg).expect("entry should parse");
    assert_eq!(k, "alice@x.com");
    assert_eq!(v, HASH);
}

#[test]
fn key_is_trimmed_and_lowercased() {
    let arg = format!("  Alice@X.COM ={HASH}");
    let (k, v) = parse_key_val(&arg).expect("entry should parse");
    assert_eq!(k, "alice@x.com");
    assert_eq!(v, HASH);
}

#[test]
fn uppercase_hash_digits_are_accepted() {
    let upper = HASH.to_uppercase();
    let arg = format!("alice@x.com={upper}");
    let (_, v) = parse_key_val(&arg).expect("entry should parse");
    assert_eq!(v, upper);
}

#[test]
fn missing_equals_is_rejected() {
    let e = parse_key_val("alice@x.com").unwrap_err();
    assert_eq!(e, "invalid user=KEY: no `=` found in `alice@x.com`");
}

#[test]
fn key_without_at_is_rejected() {
    let arg = format!("alice={HASH}");
    let e = parse_key_val(&arg).unwrap_err();
    assert_eq!(e, "invalid key: `alice` is not an email");
}

#[test]
fn short_value_is_rejected() {
    let e = parse_key_val("alice@x.com=abc123").unwrap_err();
    assert_eq!(e, "invalid value: `abc123` is not a sha256 hash");
}

#[test]
fn non_hex_value_is_rejected() {
    let bad = "g".repeat(64);
    let arg = format!("alice@x.com={bad}");
    let e = parse_key_val(&arg).unwrap_err();
    assert_eq!(e, format!("invalid value: `{bad}` is not a sha256 hash"));
}

#[test]
fn empty_argument_is_rejected() {
    let e = parse_key_val("").unwrap_err();
    assert_eq!(e, "invalid user=KEY: no `=` found in ``");
}
