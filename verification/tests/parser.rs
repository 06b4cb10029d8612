use agentbox_mail::engine::parser::{base64_encode, EmailParser};

#[test]
fn base64_known_values() {
    assert_eq!(base64_encode(b""), "");
    assert_eq!(base64_encode(b"f"), "Zg==");
    assert_eq!(base64_encode(b"fo"), "Zm8=");
    assert_eq!(base64_encode(b"foo"), "Zm9v");
    assert_eq!(base64_encode(b"foobar"), "Zm9vYmFy");
    assert_eq!(base64_encode(&[0xff, 0xfe, 0xfd]), "//79");
}

#[test]
fn base64_length_is_four_per_three() {
    for n in 0..20usize {
        let data = vec![7u8; n];
        assert_eq!(base64_encode(&data).len(), (n + 2) / 3 * 4);
    }
}

#[test]
fn mime_message_fields() {
    let raw = b"From: Alice <alice@example.com>\r\nTo: Bob <bob@x.io>, carol@x.io\r\nSubject: Verify\r\nContent-Type: text/plain\r\n\r\nHello Bob\r\n";
    let p = EmailParser::parse_mime(raw).expect("a MIME message parses");
    assert_eq!(p.from, "Alice <alice@example.com>");
    assert_eq!(p.to, vec!["bob@x.io".to_string(), "carol@x.io".to_string()]);
    assert_eq!(p.subject, Some("Verify".to_string()));
    assert!(p.body_text.unwrap().contains("Hello Bob"));
    assert!(p.attachments.is_empty());
}

#[test]
fn sender_without_from_header() {
    let raw = b"Subject: none\r\n\r\nbody\r\n";
    let p = EmailParser::parse_mime(raw).expect("parses");
    assert_eq!(p.from, "unknown@sender");
    assert!(p.to.is_empty());
}

#[test]
fn sender_display_forms() {
    assert_eq!(EmailParser::sender_display(None), "unknown@sender");
    assert_eq!(EmailParser::sender_display(Some((Some("Al".to_string()), Some("a@b".to_string())))), "Al <a@b>");
    assert_eq!(EmailParser::sender_display(Some((Some("Al".to_string()), None))), "Al");
    assert_eq!(EmailParser::sender_display(Some((None, Some("a@b".to_string())))), "a@b");
    assert_eq!(EmailParser::sender_display(Some((None, None))), "unknown@sender");
}

#[test]
fn attachments_are_summarized() {
    let raw = b"From: a@b.c\r\nTo: d@e.f\r\nSubject: file\r\nMIME-Version: 1.0\r\nContent-Type: multipart/mixed; boundary=\"XYZ\"\r\n\r\n--XYZ\r\nContent-Type: text/plain\r\n\r\nsee file\r\n--XYZ\r\nContent-Type: application/pdf\r\nContent-Disposition: attachment; filename=\"doc.pdf\"\r\nContent-Transfer-Encoding: base64\r\n\r\nZm9v\r\n--XYZ--\r\n";
    let p = EmailParser::parse_mime(raw).expect("parses");
    assert_eq!(p.attachments.len(), 1);
    assert_eq!(p.attachments[0].filename, "doc.pdf");
    assert_eq!(p.attachments[0].content_type, "application");
    assert_eq!(p.attachments[0].size_bytes, 3);
    assert_eq!(p.attachments[0].data_base64, Some("Zm9v".to_string()));
}
