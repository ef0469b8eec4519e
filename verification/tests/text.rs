use whale_sdk::errors::{task_stopped, SdkError};
use whale_sdk::text::{blank, same_texts, separated_text, signed_text, trimmed, unsigned_text};

fn texts(parts: &[&str]) -> Vec<String> {
    parts.iter().map(|part| part.to_string()).collect()
}

#[test]
fn numbers_are_written_in_decimal() {
    assert_eq!(unsigned_text(0), "0");
    assert_eq!(unsigned_text(u64::MAX), "18446744073709551615");
    assert_eq!(signed_text(i64::MIN), "-9223372036854775808");
    assert_eq!(signed_text(-7), "-7");
    assert_eq!(signed_text(1024), "1024");
}

#[test]
fn different_numbers_have_different_texts() {
    for a in -30i64..30 {
        for b in -30i64..30 {
            assert_eq!(signed_text(a) == signed_text(b), a == b);
        }
    }
}

#[test]
fn texts_are_separated_between_neighbours_only() {
    assert_eq!(separated_text(&texts(&[]), "; "), "");
    assert_eq!(separated_text(&texts(&["a"]), "; "), "a");
    assert_eq!(separated_text(&texts(&["a", "b", "c"]), "; "), "a; b; c");
}

#[test]
fn white_space_is_the_one_of_unicode() {
    for text in ["", " ", "a", " a", "a ", "a b", "\u{3000}a", "a\u{85}", "\t\n", "\u{200b}", "\u{2007}x"] {
        assert_eq!(blank(text), text.trim().is_empty(), "{text:?}");
        assert_eq!(trimmed(text), !text.trim().is_empty() && text.trim() == text, "{text:?}");
    }
}

#[test]
fn lists_are_compared_without_their_order() {
    assert!(same_texts(&texts(&["a", "b"]), &texts(&["b", "a", "a"])));
    assert!(!same_texts(&texts(&["a"]), &texts(&["a", "b"])));
    assert!(!same_texts(&texts(&["a", "b"]), &texts(&["a"])));
    assert!(same_texts(&texts(&[]), &texts(&[])));
}

#[test]
fn errors_show_what_went_wrong() {
    let shown = |error: SdkError| error.message();
    assert_eq!(
        shown(SdkError::ProtocolCompatibility("x".into())),
        "Protocol compatibility error: x"
    );
    assert_eq!(shown(SdkError::InvalidConfiguration("x".into())), "Invalid configuration: x");
    assert_eq!(shown(SdkError::Io("x".into())), "IO error: x");
    assert_eq!(shown(SdkError::Json("x".into())), "JSON error: x");
    assert_eq!(
        shown(SdkError::Rpc { code: -32601, message: "x".into() }),
        "RPC error (code -32601): x"
    );
    assert_eq!(shown(SdkError::RunExpired("x".into())), "Run expired: x");
    assert_eq!(shown(SdkError::LimitExceeded("x".into())), "Session limit exceeded: x");
    assert_eq!(shown(SdkError::ChannelClosed("x".into())), "Communication channel closed: x");
    assert_eq!(shown(SdkError::SessionClosed("x".into())), "SessionClosed: x");
    assert_eq!(shown(SdkError::Internal("x".into())), "Internal SDK error: x");
    assert_eq!(
        shown(SdkError::EventLagged),
        "Event consumer fell behind; use snapshot() for the authoritative state"
    );
    assert_eq!(shown(SdkError::AlreadySubscribed), "This run already has an event consumer");
    assert_eq!(shown(SdkError::RequestTimeout("x".into())), "RPC request timed out: x");
    assert_eq!(
        shown(task_stopped("Registration")),
        "Communication channel closed: Registration task stopped"
    );
}
