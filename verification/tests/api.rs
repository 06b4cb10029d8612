use agentbox_mail::api::{
    auto_inbox_display_name, inbound_extraction, new_inbox_request, resolve_inbound,
    static_asset_reply, with_default_sender, AssetReply, CreateAccountDto, HostingerMessageDto,
    InboundEmailDto,
};
use agentbox_mail::engine::outbound::SendEmailRequest;

fn payload() -> InboundEmailDto {
    InboundEmailDto {
        to: None,
        from: None,
        subject: None,
        body: None,
        raw_mime: None,
        event: None,
        mailbox: None,
        message: None,
    }
}

#[test]
fn plain_webhook_defaults() {
    let mut p = payload();
    p.body = Some("Your code is 482913".to_string());
    let e = resolve_inbound(p, "x.io").unwrap();
    assert_eq!(e.from, "external@service.com");
    assert_eq!(e.to, "agent@x.io");
    assert_eq!(e.body_text, Some("Your code is 482913".to_string()));
    assert_eq!(e.body_html, None);
    let x = inbound_extraction(&e);
    assert_eq!(x.otp, Some("482913".to_string()));
}

#[test]
fn webhook_body_with_tags_is_html() {
    let mut p = payload();
    p.body = Some("<p>hi</p>".to_string());
    p.to = Some("box@x.io".to_string());
    let e = resolve_inbound(p, "x.io").unwrap();
    assert_eq!(e.to, "box@x.io");
    assert_eq!(e.body_html, Some("<p>hi</p>".to_string()));
    assert_eq!(e.body_text, None);
    let mut q = payload();
    q.body = None;
    let empty = resolve_inbound(q, "x.io").unwrap();
    assert_eq!(empty.body_text, Some(String::new()));
}

#[test]
fn host_message_webhook() {
    let mut p = payload();
    p.mailbox = Some("inbox@x.io".to_string());
    p.message = Some(HostingerMessageDto {
        from: None,
        to: Some("other@x.io".to_string()),
        subject: Some("S".to_string()),
        body: Some("body".to_string()),
        text: None,
        html: Some("<b>h</b>".to_string()),
        thread_id: None,
    });
    let e = resolve_inbound(p, "x.io").unwrap();
    assert_eq!(e.to, "inbox@x.io");
    assert_eq!(e.from, "external@service.com");
    assert_eq!(e.body_text, Some("body".to_string()));
    assert_eq!(e.body_html, Some("<b>h</b>".to_string()));
    assert_eq!(e.raw_mime, None);
}

#[test]
fn mime_webhook() {
    let mut p = payload();
    p.raw_mime = Some("From: a@b.c\r\nSubject: Hi\r\n\r\nbody\r\n".to_string());
    let e = resolve_inbound(p, "x.io").unwrap();
    assert_eq!(e.from, "a@b.c");
    assert_eq!(e.to, "agent@x.io");
    assert_eq!(e.subject, Some("Hi".to_string()));
    assert!(e.raw_mime.is_some());
}

#[test]
fn new_inbox_names() {
    let (name, address) = new_inbox_request(CreateAccountDto { display_name: None, address: None }, "abc123", "x.io");
    assert_eq!(name, "agent");
    assert_eq!(address, "agent-abc123@x.io");
    let (name, address) = new_inbox_request(
        CreateAccountDto { display_name: Some("Sign Up Bot".to_string()), address: None },
        "ffffff",
        "x.io",
    );
    assert_eq!(name, "Sign Up Bot");
    assert_eq!(address, "sign-up-bot-ffffff@x.io");
    let (_, address) = new_inbox_request(
        CreateAccountDto { display_name: None, address: Some("me@x.io".to_string()) },
        "s",
        "x.io",
    );
    assert_eq!(address, "me@x.io");
    assert_eq!(auto_inbox_display_name(), "Auto-Provisioned Inbox");
}

#[test]
fn sender_defaults_to_the_inbox() {
    let req = SendEmailRequest {
        from: None,
        to: vec!["t@y".to_string()],
        cc: None,
        bcc: None,
        subject: "s".to_string(),
        text: None,
        html: None,
        in_reply_to: None,
    };
    assert_eq!(with_default_sender(req, "box@x.io").from, Some("box@x.io".to_string()));
}

#[test]
fn dashboard_files() {
    match static_asset_reply("style.css", Some(b"body{}".to_vec())) {
        AssetReply::Found { content_type, body } => {
            assert_eq!(content_type, "text/css");
            assert_eq!(body, b"body{}".to_vec());
        }
        _ => panic!("found"),
    }
    match static_asset_reply("index.html", Some(vec![])) {
        AssetReply::Found { content_type, .. } => assert_eq!(content_type, "text/html"),
        _ => panic!("found"),
    }
    match static_asset_reply("blob", Some(vec![1])) {
        AssetReply::Found { content_type, .. } => assert_eq!(content_type, "application/octet-stream"),
        _ => panic!("found"),
    }
    match static_asset_reply("missing.js", None) {
        AssetReply::NotFound { text } => assert_eq!(text, "404 Not Found"),
        _ => panic!("not found"),
    }
}
