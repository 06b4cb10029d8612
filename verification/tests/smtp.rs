use agentbox_mail::engine::smtp_server::{greeting, queued_reply, resolve_smtp_email, SmtpAction, SmtpSession};

fn reply(a: SmtpAction) -> String {
    match a {
        SmtpAction::Reply(r) => r,
        _ => panic!("a reply was expected"),
    }
}

#[test]
fn full_transaction_delivers_and_resets() {
    let mut s = SmtpSession::new();
    assert_eq!(reply(s.step("EHLO client\r\n", "x.io")), "250-x.io\r\n250-8BITMIME\r\n250-SMTPUTF8\r\n250 OK\r\n");
    assert_eq!(reply(s.step("MAIL FROM:<a@b.c>\r\n", "x.io")), "250 2.1.0 Ok\r\n");
    assert_eq!(reply(s.step("rcpt to: <agent@x.io>\r\n", "x.io")), "250 2.1.5 Ok\r\n");
    assert_eq!(reply(s.step("DATA\r\n", "x.io")), "354 End data with <CR><LF>.<CR><LF>\r\n");
    assert!(matches!(s.step("Subject: hi\r\n", "x.io"), SmtpAction::Silent));
    assert!(matches!(s.step("QUIT\r\n", "x.io"), SmtpAction::Silent));
    match s.step(".\r\n", "x.io") {
        SmtpAction::Deliver { from, to, data } => {
            assert_eq!(from, "a@b.c");
            assert_eq!(to, vec!["agent@x.io".to_string()]);
            assert_eq!(data, "Subject: hi\r\nQUIT\r\n");
        }
        _ => panic!("the message must be delivered"),
    }
    assert!(s.from_address.is_empty() && s.to_addresses.is_empty() && !s.in_data_mode);
}

#[test]
fn data_needs_a_recipient_and_rset_forgets() {
    let mut s = SmtpSession::new();
    assert_eq!(reply(s.step("DATA\r\n", "x.io")), "503 5.5.1 Error: need RCPT command\r\n");
    s.step("MAIL FROM:<a@b.c>\r\n", "x.io");
    s.step("RCPT TO:<d@e.f>\r\n", "x.io");
    assert_eq!(reply(s.step("RSET\r\n", "x.io")), "250 2.0.0 Ok\r\n");
    assert!(s.to_addresses.is_empty());
    assert_eq!(reply(s.step("NOOP\r\n", "x.io")), "250 2.0.0 Ok\r\n");
    assert_eq!(reply(s.step("VRFY x\r\n", "x.io")), "502 5.5.2 Error: command not recognized\r\n");
    match s.step("QUIT\r\n", "x.io") {
        SmtpAction::Close(r) => assert_eq!(r, "221 2.0.0 Bye\r\n"),
        _ => panic!("QUIT closes"),
    }
}

#[test]
fn greeting_and_queue_replies() {
    assert_eq!(greeting("x.io"), "220 x.io ESMTP AgentBox Mail Ready\r\n");
    assert_eq!(queued_reply("msg_abc"), "250 2.0.0 Ok: queued as msg_abc\r\n");
}

#[test]
fn smtp_mail_that_is_mime_is_parsed() {
    let raw = "From: Alice <alice@example.com>\r\nTo: bob@x.io\r\nSubject: Hello\r\n\r\nYour code is 482913\r\n";
    let e = resolve_smtp_email("env@from", &vec!["env@to".to_string()], raw, "x.io");
    assert_eq!(e.from, "Alice <alice@example.com>");
    assert_eq!(e.to, "bob@x.io");
    assert_eq!(e.subject, Some("Hello".to_string()));
    assert_eq!(e.raw_mime, Some(raw.to_string()));
}

#[test]
fn smtp_mail_without_recipients_goes_to_the_catch_all() {
    let e = resolve_smtp_email("env@from", &vec![], "no headers at all", "x.io");
    assert_eq!(e.to, "agent@x.io");
    assert_eq!(e.raw_mime, Some("no headers at all".to_string()));
}
