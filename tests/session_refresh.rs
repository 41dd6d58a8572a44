use bilidown::login::{credential_pairs, split_text, CredentialError, LoginPoll, PollDecision};
use bilidown::refresh::{correspond_path, refresh_message, to_hex};

#[test]
fn test_correspond_path() {
    let timestamp = "1734097847297";
    let encrypted_hex = correspond_path(&timestamp).unwrap();
    println!("\n{}", encrypted_hex);
    assert_eq!(encrypted_hex.len(), 256);
    assert!(encrypted_hex.chars().all(|c| c.is_ascii_hexdigit() && !c.is_ascii_uppercase()));
}

#[test]
fn refresh_text_and_hex() {
    assert_eq!(refresh_message("17"), "refresh_17");
    assert_eq!(to_hex(&[1, 2, 3, 15, 16]), "0102030f10");
    assert_eq!(to_hex(b"Hello world!"), "48656c6c6f20776f726c6421");
}

#[test]
fn credential_from_confirmation_link() {
    let pairs = credential_pairs("https://x.com/cross?DedeUserID=1&SESSDATA=a,b*c&bili_jct=z&refresh_token=t").unwrap();
    let want = [("DedeUserID", "1"), ("SESSDATA", "a%2Cb%2Ac"), ("bili_jct", "z"), ("refresh_token", "t")];
    assert_eq!(pairs.len(), 4);
    for (p, w) in pairs.iter().zip(want) {
        assert_eq!((p.0.as_str(), p.1.as_str()), w);
    }
}

#[test]
fn credential_link_errors() {
    assert_eq!(credential_pairs("no query").unwrap_err(), CredentialError::NoQuery);
    assert_eq!(credential_pairs("u?a=1&b").unwrap_err(), CredentialError::NoValue);
}

#[test]
fn split_keeps_empty_pieces() {
    assert_eq!(split_text("a&&b&", '&'), vec!["a", "", "b", ""]);
    assert_eq!(split_text("", '&'), vec![""]);
}

#[test]
fn poll_decisions_and_timeout() {
    let mut p = LoginPoll::new();
    assert!(matches!(p.on_reply(-412, 0, "", ""), PollDecision::Refused));
    assert!(matches!(p.on_reply(0, 86101, "", ""), PollDecision::Wait));
    match p.on_reply(0, 0, "https://x/?a=1", "tok") {
        PollDecision::LoggedIn(t) => assert_eq!(t, "https://x/?a=1&refresh_token=tok"),
        other => panic!("{:?}", other),
    }
    let mut waits = 0;
    while !p.after_wait() {
        waits += 1;
    }
    assert_eq!(waits, 59);
    assert_eq!(p.waited_secs, 180);
}

#[test]
fn credential_values_are_percent_encoded_by_utf8_byte() {
    let pairs = credential_pairs("u?k=\u{e9}~-._ Az9").unwrap();
    assert_eq!(pairs[0].1, "%C3%A9~-._%20Az9");
}
