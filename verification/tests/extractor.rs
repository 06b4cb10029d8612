use agentbox_mail::engine::extractor::Extractor;

#[test]
fn test_github_otp_extraction() {
    let subject = "[GitHub] Please verify your device";
    let body = "Verification code: 849201. Please use this code to sign in to your GitHub account.";
    let extracted = Extractor::extract(Some(subject), Some(body), None);
    assert_eq!(extracted.otp, Some("849201".to_string()));
}

#[test]
fn test_aws_verification_link() {
    let body = "Please click here to verify your email: https://signin.aws.amazon.com/verify?token=abc_123";
    let extracted = Extractor::extract(None, Some(body), None);
    assert!(!extracted.action_links.is_empty());
    assert_eq!(extracted.action_links[0].url, "https://signin.aws.amazon.com/verify?token=abc_123");
    assert_eq!(extracted.action_links[0].domain, "signin.aws.amazon.com");
    assert!(extracted.action_links[0].is_safe);
    assert_eq!(extracted.action_links[0].confidence_percent as f32 / 100.0, 0.98);
}

#[test]
fn test_open_redirect_safety_detection() {
    let malicious_link = "https://legit-service.com/login?redirect=https://evil-phishing-site.com/steal-session";
    let safe_link = Extractor::analyze_link_safety(malicious_link);
    assert!(!safe_link.is_safe);
    assert!(safe_link.has_open_redirect);
    assert!((safe_link.confidence_percent as f32 / 100.0) < 0.5);
}

#[test]
fn dashed_code_is_cleaned() {
    let extracted = Extractor::extract(None, Some("Your security code: 123-456"), None);
    assert_eq!(extracted.otp, Some("123456".to_string()));
}

#[test]
fn no_code_and_no_links_in_plain_text() {
    let extracted = Extractor::extract(Some("Hello"), Some("Just saying hi."), None);
    assert_eq!(extracted.otp, None);
    assert!(extracted.action_links.is_empty());
}

#[test]
fn plain_http_link_is_flagged_insecure() {
    let link = Extractor::analyze_link_safety("http://example.com/confirm?x=1");
    assert!(!link.is_safe);
    assert!(!link.has_open_redirect);
    assert_eq!(link.confidence_percent, 70);
    assert_eq!(link.reason, Some("Insecure HTTP protocol".to_string()));
}

#[test]
fn open_redirect_names_its_target() {
    let link = Extractor::analyze_link_safety("https://a.example/login?next=//evil.example/x");
    assert!(link.has_open_redirect);
    assert_eq!(link.confidence_percent, 40);
    assert_eq!(
        link.reason,
        Some("Suspicious open redirect parameter targeting: //evil.example/x".to_string())
    );
}

#[test]
fn html_anchor_links_are_screened_once() {
    let html = "<a href=\"https://example.com/verify?t=1\">Verify</a> https://example.com/verify?t=1";
    let extracted = Extractor::extract(None, None, Some(html));
    assert_eq!(extracted.action_links.len(), 1);
    assert_eq!(extracted.action_links[0].url, "https://example.com/verify?t=1");
}

#[test]
fn clean_otp_rejects_short_codes() {
    assert_eq!(Extractor::clean_otp("12-3"), None);
    assert_eq!(Extractor::clean_otp("0042"), Some("0042".to_string()));
}

#[test]
fn plain_text_links_are_web_urls() {
    let r = Extractor::extract(
        Some("Login now"),
        Some("Confirm at https://x.io/confirm?token=1 or ftp://y.io/confirm"),
        None,
    );
    assert_eq!(r.action_links.len(), 1);
    assert_eq!(r.action_links[0].url, "https://x.io/confirm?token=1");
    assert!(r.action_links.iter().all(|l| l.url.starts_with("http://") || l.url.starts_with("https://")));
}
