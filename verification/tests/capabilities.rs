use agentbox_mail::engine::capabilities::{Capability, ScopeValidator};

#[test]
fn test_capability_parsing_and_checking() {
    let caps = vec!["inbox.read".to_string(), "otp.read".to_string()];
    assert!(ScopeValidator::has_capability(&caps, Capability::OtpRead));
    assert!(ScopeValidator::has_capability(&caps, Capability::InboxRead));
    assert!(!ScopeValidator::has_capability(&caps, Capability::EmailSend));
    assert!(!ScopeValidator::has_capability(&caps, Capability::InboxDelete));
}

#[test]
fn test_wildcard_permissions() {
    let caps = vec!["*".to_string()];
    assert!(ScopeValidator::has_capability(&caps, Capability::EmailSend));
    assert!(ScopeValidator::has_capability(&caps, Capability::IdentityManage));
}

#[test]
fn canonical_names_parse_back() {
    for c in Capability::all() {
        assert_eq!(Capability::parse(c.as_str()), Some(c));
    }
}

#[test]
fn parse_accepts_aliases_prefixes_and_case() {
    assert_eq!(Capability::parse("  agentbox.OTP.READ "), Some(Capability::OtpRead));
    assert_eq!(Capability::parse("send"), Some(Capability::EmailSend));
    assert_eq!(Capability::parse("admin"), Some(Capability::IdentityManage));
    assert_eq!(Capability::parse("agentbox.agentbox.links"), Some(Capability::LinksRead));
    assert_eq!(Capability::parse("inbox.write"), None);
}

#[test]
fn scope_matches_prefixed_and_trimmed_entries() {
    let caps = vec![" agentbox.email.send ".to_string()];
    assert!(ScopeValidator::has_capability(&caps, Capability::EmailSend));
    assert!(!ScopeValidator::has_capability(&caps, Capability::InboxRead));
    let admin = vec!["admin".to_string()];
    assert!(ScopeValidator::has_capability(&admin, Capability::InboxDelete));
    let all = vec!["all".to_string()];
    assert!(ScopeValidator::has_capability(&all, Capability::LinksRead));
    let none: Vec<String> = Vec::new();
    assert!(!ScopeValidator::has_capability(&none, Capability::InboxRead));
}

#[test]
fn preset_capability_sets() {
    assert_eq!(Capability::all().len(), 7);
    let std_caps = Capability::standard_agent();
    assert!(std_caps.contains(&Capability::InboxRead));
    assert!(!std_caps.is_empty());
    let qa = Capability::browser_qa_agent();
    assert!(!qa.is_empty());
    for c in qa {
        assert!(Capability::all().contains(&c));
    }
}

#[test]
fn padded_capital_names_parse_back() {
    assert_eq!(Capability::parse(" OTP.READ "), Some(Capability::OtpRead));
    assert_eq!(Capability::parse("\tEMAIL.SEND\n"), Some(Capability::EmailSend));
    assert_eq!(Capability::parse("  IDENTITY.MANAGE"), Some(Capability::IdentityManage));
}
