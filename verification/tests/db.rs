use agentbox_mail::db::{
    agent_id_prefix, collect_unique_links, list_tasks_query, message_link_urls, otp_cutoff, progress_event_type,
    verify_resource_ownership, Account, AgentIdentity, AgentIdentityPublic, AgentRegistration,
    InboundEmail, Message,
};

fn agent(id: &str, email: &str, caps: &str) -> AgentIdentity {
    AgentIdentity {
        id: id.to_string(),
        name: "A".to_string(),
        email_address: email.to_string(),
        capabilities: caps.to_string(),
        token: "agb_x".to_string(),
        status: "active".to_string(),
        created_at: 1,
        last_active_at: 2,
    }
}

fn account(address: &str, owner: Option<&str>) -> Account {
    Account {
        id: "acc_1".to_string(),
        address: address.to_string(),
        display_name: None,
        owner_agent_id: owner.map(|o| o.to_string()),
        status: "active".to_string(),
        created_at: 0,
    }
}

fn stored(links: Option<&str>) -> Message {
    Message::inbound(
        "msg_1".to_string(),
        "acc_1".to_string(),
        InboundEmail {
            from: "a@b".to_string(),
            to: "c@d".to_string(),
            subject: None,
            body_text: None,
            body_html: None,
            raw_mime: None,
        },
        None,
        links.map(|l| l.to_string()),
        9,
    )
}

#[test]
fn ownership_rules() {
    let a = agent("agent_a_1", "Agent-A@Test.io", "[\"inbox.read\"]");
    assert!(verify_resource_ownership(&a, Some(&account("x@y", Some("agent_a_1")))));
    assert!(verify_resource_ownership(&a, Some(&account("agent-a@test.io", Some("agent_b_2")))));
    assert!(!verify_resource_ownership(&a, Some(&account("b@test.io", Some("agent_b_2")))));
    assert!(!verify_resource_ownership(&a, Some(&account("b@test.io", None))));
    assert!(!verify_resource_ownership(&a, None));
    let admin = agent("agent_root_1", "root@test.io", "[\"*\"]");
    assert!(verify_resource_ownership(&admin, Some(&account("b@test.io", None))));
    assert!(!verify_resource_ownership(&admin, Some(&account("b@test.io", Some("agent_b_2")))));
}

#[test]
fn public_identity_hides_the_token() {
    let a = agent("agent_a_1", "a@t.io", "[]");
    let p: AgentIdentityPublic = a.to_public();
    assert_eq!(p.id, "agent_a_1");
    assert_eq!(p.email_address, "a@t.io");
    assert_eq!(p.created_at, 1);
    assert_eq!(p.last_active_at, 2);
}

#[test]
fn registration_fields() {
    let caps = vec!["inbox.read".to_string(), "otp.read".to_string()];
    let r: AgentRegistration = AgentIdentity::register(
        "QA Bot",
        "qa@x.io",
        &caps,
        "abcdef12-0000-0000-0000-000000000000",
        "0123456789abcdef0123456789abcdef",
        50,
    );
    assert_eq!(r.identity.id, "agent_qa-bot_abcdef");
    assert_eq!(r.identity.token, "agb_0123456789abcdef0123456789abcdef");
    assert_eq!(r.identity.capabilities, "[\"inbox.read\",\"otp.read\"]");
    assert_eq!(r.credential.auth_token, r.identity.token);
    assert_eq!(r.credential.capabilities, caps);
    assert_eq!(r.mailbox_display_name, "Agent: QA Bot");
    let f = AgentIdentity::register_fresh("Bot", "b@x.io", &caps);
    assert!(f.identity.id.starts_with("agent_bot_"));
    assert_eq!(f.identity.token.len(), 36);
}

#[test]
fn links_are_collected_once_in_order() {
    let msgs = vec![
        stored(Some("[\"https://a/verify\",\"https://b/confirm\"]")),
        stored(None),
        stored(Some("not json")),
        stored(Some("[\"https://b/confirm\",\"https://c/login\"]")),
    ];
    assert_eq!(
        collect_unique_links(&msgs),
        vec!["https://a/verify".to_string(), "https://b/confirm".to_string(), "https://c/login".to_string()]
    );
}

#[test]
fn stored_link_records_give_their_urls() {
    let msgs = vec![
        stored(Some("[{\"url\":\"https://github.com/verify?token=782014\",\"domain\":\"github.com\",\"is_safe\":true}]")),
        stored(Some("[{\"url\":\"https://github.com/verify?token=782014\"},{\"url\":\"https://x.io/magic\"},{\"url\":7}]")),
    ];
    assert_eq!(
        collect_unique_links(&msgs),
        vec!["https://github.com/verify?token=782014".to_string(), "https://x.io/magic".to_string()]
    );
    assert_eq!(message_link_urls(&msgs[1]), vec!["https://github.com/verify?token=782014", "https://x.io/magic"]);
    assert!(message_link_urls(&stored(Some("{}"))).is_empty());
}

#[test]
fn task_queries_and_helpers() {
    assert_eq!(list_tasks_query(false, false), "SELECT * FROM agent_tasks WHERE 1=1 ORDER BY created_at DESC LIMIT ?");
    assert_eq!(
        list_tasks_query(false, true),
        "SELECT * FROM agent_tasks WHERE 1=1 AND status = ? ORDER BY created_at DESC LIMIT ?"
    );
    assert!(list_tasks_query(true, false).contains("assigned_agent_id = ?"));
    assert_eq!(agent_id_prefix("agent_coder_ab12"), "coder");
    assert_eq!(agent_id_prefix("agent_solo"), "solo");
    assert_eq!(agent_id_prefix("jules"), "jules");
    assert_eq!(progress_event_type("running"), "task.running");
    assert_eq!(otp_cutoff(1000, 300), 700);
}

#[test]
fn outbound_record() {
    let m = Message::outbound(
        "msg_2".to_string(),
        "acc_1".to_string(),
        "me@x.io".to_string(),
        &vec!["you@y.io".to_string(), "other@y.io".to_string()],
        "Hi".to_string(),
        Some("text".to_string()),
        None,
        10,
    );
    assert_eq!(m.to_address, "you@y.io");
    assert_eq!(m.subject, Some("Hi".to_string()));
    assert_eq!(m.direction, "outbound");
    let none = Message::outbound("m".to_string(), "a".to_string(), "f".to_string(), &vec![], "s".to_string(), None, None, 0);
    assert_eq!(none.to_address, "");
}

#[test]
fn new_accounts() {
    let a = Account::new_active("box@x.io", Some("Box"), None);
    assert!(a.id.starts_with("acc_"));
    assert_eq!(a.id.len(), 16);
    assert_eq!(a.status, "active");
    let b = Account::assemble("box@x.io", None, Some("agent_1"), "0a1b2c3d-4e5f-6071-8293-a4b5c6d7e8f9", 3);
    assert_eq!(b.id, "acc_0a1b2c3d4e5f");
    assert_eq!(b.owner_agent_id, Some("agent_1".to_string()));
}
