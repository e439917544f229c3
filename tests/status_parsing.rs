use safe_chat::status::{parse_status, status_from_text, MessageStatus};

#[test]
fn status_is_trimmed_and_case_folded() {
    assert_eq!(parse_status(" read "), Some(MessageStatus::Read));
    assert_eq!(parse_status("Delivered"), Some(MessageStatus::Delivered));
    assert_eq!(parse_status("sent"), Some(MessageStatus::Sent));
    assert_eq!(parse_status("FAILED\n"), Some(MessageStatus::Failed));
}

#[test]
fn unknown_status_is_refused() {
    assert_eq!(parse_status("seen"), None);
    assert_eq!(parse_status(""), None);
    assert_eq!(parse_status("RE AD"), None);
}

#[test]
fn canonical_text_round_trips() {
    for s in [MessageStatus::Sent, MessageStatus::Delivered, MessageStatus::Read, MessageStatus::Failed] {
        assert_eq!(status_from_text(&s.as_string()), Some(s));
    }
    assert_eq!(status_from_text("read"), None);
}
