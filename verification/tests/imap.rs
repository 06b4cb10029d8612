use agentbox_mail::engine::imap_sync::{
    default_poll_interval_secs, imap_inbox_display_name, login_failure_text, poll_delay_secs,
    resolve_imap_email,
};

#[test]
fn fetched_mail_keeps_valid_text() {
    let raw = b"From: Bank <no-reply@bank.example>\r\nTo: me@x.io\r\nSubject: Code\r\n\r\nYour OTP: 123456\r\n";
    let e = resolve_imap_email(raw, "user@x.io").expect("a MIME message");
    assert_eq!(e.from, "Bank <no-reply@bank.example>");
    assert_eq!(e.to, "me@x.io");
    assert_eq!(e.raw_mime, Some(String::from_utf8(raw.to_vec()).unwrap()));
}

#[test]
fn fetched_mail_without_recipient_goes_to_the_user() {
    let raw = b"From: a@b.c\r\nSubject: x\r\n\r\n\xff\xfe body\r\n";
    let e = resolve_imap_email(raw, "user@x.io").expect("a MIME message");
    assert_eq!(e.to, "user@x.io");
    assert_eq!(e.raw_mime, None);
}

#[test]
fn polling_rhythm() {
    assert_eq!(default_poll_interval_secs(), 5);
    assert_eq!(poll_delay_secs(true, 5), 10);
    assert_eq!(poll_delay_secs(false, 5), 5);
    assert_eq!(imap_inbox_display_name(), "Live Hostinger Inbox");
    assert_eq!(login_failure_text("bad password"), "IMAP login failed: bad password");
}
