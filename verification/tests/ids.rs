use agentbox_mail::ids::{compact_slug, default_inbox_address, fresh_id, fresh_slug, prefixed_id, slugify_name};

#[test]
fn identifiers_from_uuids() {
    let u = "12345678-9abc-def0-1234-56789abcdef0";
    assert_eq!(compact_slug(u, 12), "123456789abc");
    assert_eq!(prefixed_id("msg_", u, 12), "msg_123456789abc");
}

#[test]
fn fresh_identifiers_are_hex() {
    let id = fresh_id("msg_", 12);
    assert!(id.starts_with("msg_"));
    assert_eq!(id.len(), 16);
    assert!(id[4..].chars().all(|c| c.is_ascii_digit() || ('a'..='f').contains(&c)));
    let s = fresh_slug(6);
    assert_eq!(s.len(), 6);
    assert_ne!(fresh_id("x", 32), fresh_id("x", 32));
}

#[test]
fn inbox_addresses() {
    assert_eq!(slugify_name("GitHub Signup Bot"), "github-signup-bot");
    assert_eq!(default_inbox_address("Name", "abc123", "x.io"), "name-abc123@x.io");
}
