use agentbox_mail::engine::outbound::{first_invalid_address, OutboundMailer, SendEmailRequest};

fn request(from: Option<&str>, to: &[&str], cc: Option<&[&str]>) -> SendEmailRequest {
    SendEmailRequest {
        from: from.map(|f| f.to_string()),
        to: to.iter().map(|t| t.to_string()).collect(),
        cc: cc.map(|c| c.iter().map(|x| x.to_string()).collect()),
        bcc: None,
        subject: "Hello".to_string(),
        text: Some("body".to_string()),
        html: None,
        in_reply_to: None,
    }
}

#[test]
fn plans_default_the_sender_and_keep_recipients() {
    let mailer = OutboundMailer::new(None, 587, None, None);
    let plan = mailer.plan(request(None, &["target@example.com"], None));
    assert_eq!(plan.from, "agent@agentbox.io");
    assert_eq!(plan.to, vec!["target@example.com".to_string()]);
    assert!(plan.cc.is_empty());
    assert!(!plan.body_is_html);
    assert!(plan.relay.is_none());
    assert_eq!(OutboundMailer::dispatch_status(false), "Dispatched (Mock/Dev Mode)");
}

#[test]
fn unreadable_addresses_stop_the_dispatch() {
    let mailer = OutboundMailer::new(None, 587, None, None);
    let good = mailer.plan(request(Some("Agent <agent@test.io>"), &["target@example.com"], Some(&["cc@example.com"])));
    assert_eq!(first_invalid_address(&good), None);
    let bad_to = mailer.plan(request(Some("agent@test.io"), &["target@example.com", "not an address"], None));
    assert_eq!(first_invalid_address(&bad_to), Some("not an address".to_string()));
    let bad_from = mailer.plan(request(Some("nobody"), &["also wrong"], None));
    assert_eq!(first_invalid_address(&bad_from), Some("nobody".to_string()));
    let bad_cc = mailer.plan(request(None, &["a@b.io"], Some(&["c@d.io", "@@"])));
    assert_eq!(first_invalid_address(&bad_cc), Some("@@".to_string()));
}
