use http_mailer::compose::{compose_body, MessageBody};
use http_mailer::error::{ErrorKind, MailError, Severity};
use http_mailer::pipeline::{dispatch_outcome, handle_request};

use sha2::Digest;

fn digest_hex(s: &str) -> String {
    let d = sha2::Sha256::digest(s.as_bytes());
    let mut out = String::new();
    for b in d {
        out += &format!("{:02x}", b);
    }
    out
}

fn headers(pairs: &[(&str, &str)]) -> Vec<(String, String)> {
    pairs.iter().map(|(n, v)| (n.to_string(), v.to_string())).collect()
}

fn registry(pairs: &[(&str, &str)]) -> Vec<(String, String)> {
    pairs.iter().map(|(n, v)| (n.to_string(), v.to_string())).collect()
}

#[test]
fn valid_request_succeeds() {
    let h = headers(&[
        ("from", "alice@x.com"),
        ("to", "bob@y.com"),
        ("subject", "Hi"),
        ("api-key", "secret"),
    ]);
    let reg = registry(&[("alice@x.com", &digest_hex("secret"))]);
    let m = handle_request(&h, "", &reg).expect("pipeline should succeed");
    assert_eq!(m.from.address, "alice@x.com");
    assert_eq!(m.to.address, "bob@y.com");
    assert_eq!(m.subject, "Hi");
    assert!(m.reply_to.is_none());
    match m.body {
        MessageBody::Plain(b) => assert_eq!(b, ""),
        _ => panic!("expected a plain body"),
    }
}

#[test]
fn other_identity_is_unauthorized() {
    let h = headers(&[
        ("from", "alice@x.com"),
        ("to", "bob@y.com"),
        ("subject", "Hi"),
        ("api-key", "secret"),
    ]);
    let reg = registry(&[("carol@x.com", &digest_hex("secret"))]);
    let e = handle_request(&h, "", &reg).unwrap_err();
    assert_eq!(e.kind(), ErrorKind::Unauthorized);
    match e {
        MailError::Unauthorized(d) => assert_eq!(d, digest_hex("secret")),
        _ => unreachable!(),
    }
}

#[test]
fn wrong_secret_is_unauthorized() {
    let h = headers(&[
        ("from", "alice@x.com"),
        ("to", "bob@y.com"),
        ("subject", "Hi"),
        ("api-key", "guess"),
    ]);
    let reg = registry(&[("alice@x.com", &digest_hex("secret"))]);
    let e = handle_request(&h, "", &reg).unwrap_err();
    assert_eq!(e.kind(), ErrorKind::Unauthorized);
}

#[test]
fn missing_api_key_is_rejected() {
    let h = headers(&[("from", "alice@x.com"), ("to", "bob@y.com"), ("subject", "Hi")]);
    let reg = registry(&[("alice@x.com", &digest_hex("secret"))]);
    let e = handle_request(&h, "", &reg).unwrap_err();
    assert_eq!(e.kind(), ErrorKind::MissingApiKey);
}

#[test]
fn malformed_to_is_a_parse_error() {
    let h = headers(&[
        ("from", "alice@x.com"),
        ("to", "not-an-email"),
        ("subject", "Hi"),
        ("api-key", "secret"),
    ]);
    let reg = registry(&[("alice@x.com", &digest_hex("secret"))]);
    let e = handle_request(&h, "", &reg).unwrap_err();
    assert_eq!(e.kind(), ErrorKind::MailboxParseError);
}

#[test]
fn missing_fields_are_reported_in_order() {
    let reg = registry(&[("alice@x.com", &digest_hex("secret"))]);
    let base = [("from", "alice@x.com"), ("api-key", "secret")];

    let h = headers(&base);
    assert_eq!(handle_request(&h, "", &reg).unwrap_err().kind(), ErrorKind::MissingTo);

    let h = headers(&[("to", "bob@y.com"), ("api-key", "secret")]);
    // with no `from` the claimed identity is empty, which no registry entry
    // matches, so authentication already fails
    assert_eq!(handle_request(&h, "", &reg).unwrap_err().kind(), ErrorKind::Unauthorized);

    let h = headers(&[("from", "alice@x.com"), ("to", "bob@y.com"), ("api-key", "secret")]);
    assert_eq!(handle_request(&h, "", &reg).unwrap_err().kind(), ErrorKind::MissingSubject);
}

#[test]
fn body_with_sentinel_splits() {
    match compose_body("plain text\n-----END-TEXT-BEGIN-HTML-----\n<b>html</b>") {
        MessageBody::Alternative { plain, html } => {
            assert_eq!(plain, "plain text");
            assert_eq!(html, "<b>html</b>");
        },
        _ => panic!("expected an alternative body"),
    }
}

#[test]
fn body_sentinel_at_the_edges() {
    match compose_body("\n-----END-TEXT-BEGIN-HTML-----\n<b>x</b>") {
        MessageBody::Alternative { plain, html } => {
            assert_eq!(plain, "");
            assert_eq!(html, "<b>x</b>");
        },
        _ => panic!("expected an alternative body"),
    }
    match compose_body("text\n-----END-TEXT-BEGIN-HTML-----\n") {
        MessageBody::Alternative { plain, html } => {
            assert_eq!(plain, "text");
            assert_eq!(html, "");
        },
        _ => panic!("expected an alternative body"),
    }
}

#[test]
fn body_without_sentinel_is_unchanged() {
    match compose_body("just a plain message, nothing more") {
        MessageBody::Plain(b) => assert_eq!(b, "just a plain message, nothing more"),
        _ => panic!("expected a plain body"),
    }
}

#[test]
fn same_request_gives_same_outcome_twice() {
    let h = headers(&[
        ("from", "alice@x.com"),
        ("to", "bob@y.com"),
        ("subject", "Hi"),
        ("api-key", "secret"),
    ]);
    let reg = registry(&[("alice@x.com", &digest_hex("secret"))]);
    let r1 = handle_request(&h, "same body", &reg);
    let r2 = handle_request(&h, "same body", &reg);
    match (r1, r2) {
        (Ok(m1), Ok(m2)) => {
            assert_eq!(m1.from.address, m2.from.address);
            assert_eq!(m1.to.address, m2.to.address);
            assert_eq!(m1.subject, m2.subject);
        },
        (Err(e1), Err(e2)) => assert_eq!(e1.kind(), e2.kind()),
        _ => panic!("the two outcomes differ in kind"),
    }

    let bad = headers(&[("to", "bob@y.com")]);
    let e1 = handle_request(&bad, "", &reg).unwrap_err();
    let e2 = handle_request(&bad, "", &reg).unwrap_err();
    assert_eq!(e1.kind(), e2.kind());
}

#[test]
fn header_names_match_case_insensitively_and_last_wins() {
    let h = headers(&[
        ("FROM", "Alice@X.com"),
        ("To", "carol@z.org"),
        ("To", "bob@y.com"),
        ("Subject", "Hi"),
        ("Api-Key", "secret"),
    ]);
    let reg = registry(&[("alice@x.com", &digest_hex("secret"))]);
    let m = handle_request(&h, "", &reg).expect("pipeline should succeed");
    // the from value is lowercased at extraction; the later `To` wins
    assert_eq!(m.from.address, "alice@x.com");
    assert_eq!(m.to.address, "bob@y.com");
}

#[test]
fn display_names_are_parsed_out() {
    let h = headers(&[
        ("from", "alice@x.com"),
        ("to", "Bob Smith <bob@y.com>"),
        ("reply-to", "Carol <carol@z.org>"),
        ("subject", "Hi"),
        ("api-key", "secret"),
    ]);
    let reg = registry(&[("alice@x.com", &digest_hex("secret"))]);
    let m = handle_request(&h, "", &reg).expect("pipeline should succeed");
    assert_eq!(m.to.name.as_deref(), Some("Bob Smith"));
    assert_eq!(m.to.address, "bob@y.com");
    let r = m.reply_to.expect("reply-to should be kept");
    assert_eq!(r.name.as_deref(), Some("Carol"));
    assert_eq!(r.address, "carol@z.org");
}

#[test]
fn malformed_reply_to_is_a_parse_error() {
    let h = headers(&[
        ("from", "alice@x.com"),
        ("to", "bob@y.com"),
        ("reply-to", "###"),
        ("subject", "Hi"),
        ("api-key", "secret"),
    ]);
    let reg = registry(&[("alice@x.com", &digest_hex("secret"))]);
    let e = handle_request(&h, "", &reg).unwrap_err();
    assert_eq!(e.kind(), ErrorKind::MailboxParseError);
}

#[test]
fn dispatch_outcome_maps_transport_failures() {
    assert!(dispatch_outcome(Ok(())).is_ok());
    let e = dispatch_outcome(Err("connection refused".to_string())).unwrap_err();
    assert_eq!(e.kind(), ErrorKind::DispatchFailed);
    assert_eq!(e.description(), "failed to send the email: connection refused");
}

#[test]
fn severities_follow_the_kind() {
    assert_eq!(MailError::MissingApiKey.severity(), Severity::Client);
    assert_eq!(MailError::MissingTo.severity(), Severity::Client);
    assert_eq!(MailError::MailboxParseError.severity(), Severity::Client);
    assert_eq!(MailError::Unauthorized(String::new()).severity(), Severity::Authentication);
    assert_eq!(MailError::DispatchFailed(String::new()).severity(), Severity::Transport);
    assert_eq!(MailError::MissingApiKey.description(), "missing api-key header");
}

#[test]
fn split_happens_at_the_first_sentinel() {
    let s = "\n-----END-TEXT-BEGIN-HTML-----\n";
    let body = format!("a{s}b{s}c");
    match compose_body(&body) {
        MessageBody::Alternative { plain, html } => {
            assert_eq!(plain, "a");
            assert_eq!(html, format!("b{s}c"));
        },
        _ => panic!("expected an alternative body"),
    }
}

#[test]
fn empty_registry_rejects_everyone() {
    let h = headers(&[
        ("from", "alice@x.com"),
        ("to", "bob@y.com"),
        ("subject", "Hi"),
        ("api-key", "secret"),
    ]);
    let reg: Vec<(String, String)> = Vec::new();
    let e = handle_request(&h, "", &reg).unwrap_err();
    assert_eq!(e.kind(), ErrorKind::Unauthorized);
}
