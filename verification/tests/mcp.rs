use agentbox_mail::db::{Account, AgentIdentity, Message};
use agentbox_mail::engine::tasks::TaskPriority;
use agentbox_mail::mcp::{
    account_ref, agent_mail, authorize, classify_method, first_recent_message, inbox_owner,
    is_blank_line, method_reply, ownership_check, plan_tool, plan_tool_with_slug,
    required_recipient, required_scope, respond, tool_call_reply, tool_catalog, wait_polls, wait_report,
    wait_timeout, AccountRef, McpMethod, McpReply, ToolArgs, ToolPlan, WaitReport,
};

fn no_args() -> ToolArgs {
    ToolArgs {
        name: None,
        address: None,
        account_id: None,
        timeout_secs: None,
        to: None,
        subject: None,
        body: None,
        agent_token: None,
        task_id: None,
        action: None,
        repository: None,
        branch: None,
        priority: None,
        description: None,
        evidence: None,
        acceptance_criteria: None,
        target_agent_id: None,
        status: None,
        commit_sha: None,
        pr_url: None,
        test_results: None,
        note: None,
        summary: None,
        limit: None,
    }
}

fn identity(id: &str, email: &str, caps: &str, status: &str) -> AgentIdentity {
    AgentIdentity {
        id: id.to_string(),
        name: id.to_string(),
        email_address: email.to_string(),
        capabilities: caps.to_string(),
        token: format!("agb_{}", id),
        status: status.to_string(),
        created_at: 1,
        last_active_at: 1,
    }
}

fn inbox(id: &str, address: &str, owner: Option<&str>) -> Account {
    Account {
        id: id.to_string(),
        address: address.to_string(),
        display_name: None,
        owner_agent_id: owner.map(|o| o.to_string()),
        status: "active".to_string(),
        created_at: 0,
    }
}

fn plan_of(name: &str, args: ToolArgs) -> ToolPlan {
    match plan_tool(Some(name.to_string()), args, "test.agentbox") {
        Ok(p) => p,
        Err(e) => panic!("{} must be planned: {}", name, e),
    }
}

fn message(created_at: i64, subject: &str) -> Message {
    Message {
        id: format!("msg_{}", created_at),
        account_id: "acc_1".to_string(),
        from_address: "sender@example.com".to_string(),
        to_address: "agent@example.com".to_string(),
        subject: Some(subject.to_string()),
        body_text: Some("body".to_string()),
        body_html: None,
        raw_mime: None,
        extracted_otp: Some("123456".to_string()),
        extracted_links: None,
        direction: "inbound".to_string(),
        created_at,
    }
}

#[test]
fn methods_are_classified() {
    assert_eq!(classify_method("initialize"), McpMethod::Initialize);
    assert_eq!(classify_method("tools/list"), McpMethod::ToolsList);
    assert_eq!(classify_method("tools/call"), McpMethod::ToolsCall);
    assert_eq!(classify_method("tools/delete"), McpMethod::Unknown);
}

#[test]
fn method_replies() {
    match method_reply(McpMethod::Initialize) {
        Some(McpReply::ServerInfo { protocol_version, server_name, server_version }) => {
            assert_eq!(protocol_version, "2024-11-05");
            assert_eq!(server_name, "agentbox-mail-mcp");
            assert_eq!(server_version, "0.2.0");
        }
        _ => panic!("initialize must answer with server info"),
    }
    match method_reply(McpMethod::Unknown) {
        Some(McpReply::Error { code, message }) => {
            assert_eq!(code, -32601);
            assert_eq!(message, "Method not found");
        }
        _ => panic!("unknown method must be an error"),
    }
    assert!(method_reply(McpMethod::ToolsCall).is_none());
    match method_reply(McpMethod::ToolsList) {
        Some(McpReply::Tools(tools)) => assert_eq!(tools.len(), 13),
        _ => panic!("tools/list must list tools"),
    }
}

#[test]
fn tool_results_and_failures() {
    match tool_call_reply(Err("Missing account_id".to_string())) {
        McpReply::Error { code, message } => {
            assert_eq!(code, -32000);
            assert_eq!(message, "Missing account_id");
        }
        _ => panic!("a failure must be an error"),
    }
    match tool_call_reply(Ok("{}".to_string())) {
        McpReply::ToolText(t) => assert_eq!(t, "{}"),
        _ => panic!("a result must be text"),
    }
}

#[test]
fn catalog_lists_mail_and_task_tools() {
    let tools = tool_catalog();
    let names: Vec<&str> = tools.iter().map(|t| t.name.as_str()).collect();
    assert_eq!(
        names,
        vec![
            "create_agent_inbox",
            "get_latest_otp",
            "wait_for_email",
            "get_verification_link",
            "read_agent_inbox",
            "send_agent_email",
            "delete_agent_inbox",
            "dispatch_agent_task",
            "list_agent_tasks",
            "claim_agent_task",
            "update_task_progress",
            "complete_agent_task",
            "get_task_audit_trail"
        ]
    );
    assert_eq!(tools[7].required, vec!["action"]);
    assert!(tools[8].required.is_empty());
    assert_eq!(tools[10].required, vec!["task_id", "status"]);
    assert_eq!(tools[12].required, vec!["task_id"]);
    assert_eq!(tools[7].params[5].kind, "array");
    assert!(tools[0].required.is_empty());
    assert!(tools[2].required.is_empty());
    assert_eq!(tools[5].required, vec!["account_id", "to", "subject", "body"]);
    assert_eq!(tools[2].params[1].kind, "integer");
}

#[test]
fn create_inbox_plans() {
    match plan_tool_with_slug(Some("create_agent_inbox".to_string()), no_args(), "a1b2c3", "apocalypto.in") {
        Ok(ToolPlan::CreateInbox { address, display_name }) => {
            assert_eq!(display_name, "agent-worker");
            assert_eq!(address, "agent-worker-a1b2c3@apocalypto.in");
        }
        _ => panic!("create must be planned"),
    }
    let mut args = no_args();
    args.name = Some("GitHub Bot".to_string());
    match plan_tool_with_slug(Some("create_agent_inbox".to_string()), args, "ffffff", "x.io") {
        Ok(ToolPlan::CreateInbox { address, display_name }) => {
            assert_eq!(display_name, "GitHub Bot");
            assert_eq!(address, "github-bot-ffffff@x.io");
        }
        _ => panic!("create must be planned"),
    }
    let mut args = no_args();
    args.address = Some("me@x.io".to_string());
    match plan_tool(Some("create_agent_inbox".to_string()), args, "x.io") {
        Ok(ToolPlan::CreateInbox { address, .. }) => assert_eq!(address, "me@x.io"),
        _ => panic!("create must be planned"),
    }
}

#[test]
fn random_slug_has_six_hex_digits() {
    match plan_tool(Some("create_agent_inbox".to_string()), no_args(), "x.io") {
        Ok(ToolPlan::CreateInbox { address, .. }) => {
            let slug = &address["agent-worker-".len()..address.len() - "@x.io".len()];
            assert_eq!(slug.len(), 6);
            assert!(slug.chars().all(|c| c.is_ascii_hexdigit() && !c.is_ascii_uppercase()));
        }
        _ => panic!("create must be planned"),
    }
}

#[test]
fn account_tools_need_an_account() {
    for name in ["get_latest_otp", "get_verification_link", "read_agent_inbox", "send_agent_email", "delete_agent_inbox"] {
        match plan_tool_with_slug(Some(name.to_string()), no_args(), "s", "d") {
            Err(m) => assert_eq!(m, "Missing account_id"),
            Ok(_) => panic!("{} must need an account", name),
        }
    }
}

#[test]
fn unknown_and_unnamed_tools_are_refused() {
    match plan_tool_with_slug(Some("drop_tables".to_string()), no_args(), "s", "d") {
        Err(m) => assert_eq!(m, "Unknown tool: drop_tables"),
        Ok(_) => panic!("unknown tool must be refused"),
    }
    match plan_tool_with_slug(None, no_args(), "s", "d") {
        Err(m) => assert_eq!(m, "Unknown tool: "),
        Ok(_) => panic!("unnamed tool must be refused"),
    }
}

#[test]
fn wait_defaults_and_caps_its_timeout() {
    match plan_tool_with_slug(Some("wait_for_email".to_string()), no_args(), "s", "d") {
        Ok(ToolPlan::WaitForEmail { identifier, timeout_secs }) => {
            assert_eq!(identifier, "agent");
            assert_eq!(timeout_secs, 30);
        }
        _ => panic!("wait must be planned"),
    }
    assert_eq!(wait_timeout(Some(500)), 120);
    assert_eq!(wait_timeout(Some(5)), 5);
    assert_eq!(wait_polls(120), 240);
}

#[test]
fn send_plan_defaults_subject_and_body() {
    let mut args = no_args();
    args.account_id = Some("acc_1".to_string());
    match plan_tool_with_slug(Some("send_agent_email".to_string()), args, "s", "d") {
        Ok(ToolPlan::SendEmail { identifier, to, subject, body }) => {
            assert_eq!(identifier, "acc_1");
            assert_eq!(to, None);
            assert_eq!(subject, "(No Subject)");
            assert_eq!(body, "");
        }
        _ => panic!("send must be planned"),
    }
    match required_recipient(None) {
        Err(m) => assert_eq!(m, "Missing recipient 'to'"),
        Ok(_) => panic!("a recipient is required"),
    }
}

#[test]
fn mail_goes_out_from_the_account_address() {
    let acc = Account {
        id: "acc_1".to_string(),
        address: "bot@x.io".to_string(),
        display_name: None,
        owner_agent_id: None,
        status: "active".to_string(),
        created_at: 0,
    };
    let req = agent_mail("to@y.io".to_string(), "Hi".to_string(), "Body".to_string(), Some(acc)).unwrap();
    assert_eq!(req.from, Some("bot@x.io".to_string()));
    assert_eq!(req.to, vec!["to@y.io".to_string()]);
    assert_eq!(req.text, Some("Body".to_string()));
    assert!(req.html.is_none());
    match agent_mail("to@y.io".to_string(), "Hi".to_string(), "Body".to_string(), None) {
        Err(m) => assert_eq!(m, "Account not found"),
        Ok(_) => panic!("no account, no mail"),
    }
}

#[test]
fn identifiers_with_at_are_addresses() {
    match account_ref("bot@x.io") {
        AccountRef::Address(a) => assert_eq!(a, "bot@x.io"),
        _ => panic!("an address"),
    }
    match account_ref("acc_123") {
        AccountRef::Id(i) => assert_eq!(i, "acc_123"),
        _ => panic!("an identifier"),
    }
}

#[test]
fn recent_messages_are_found_first_in_order() {
    let msgs = vec![message(100, "old"), message(996, "edge"), message(1000, "new")];
    assert_eq!(first_recent_message(&msgs, 1001), Some(1));
    assert_eq!(first_recent_message(&msgs, 2000), None);
    match wait_report(Some(&msgs[1]), 30) {
        WaitReport::Received { subject, otp, created_at, links, .. } => {
            assert_eq!(subject, Some("edge".to_string()));
            assert_eq!(otp, Some("123456".to_string()));
            assert_eq!(created_at, 996);
            assert!(links.is_empty());
        }
        _ => panic!("received"),
    }
    match wait_report(None, 45) {
        WaitReport::TimedOut { message } => assert_eq!(message, "Timed out after 45s waiting for email"),
        _ => panic!("timed out"),
    }
}

#[test]
fn blank_lines_are_skipped() {
    assert!(is_blank_line("  \t "));
    assert!(!is_blank_line(" {} "));
}

#[test]
fn waiting_reports_the_urls_of_action_links() {
    let mut m = message(1000, "verify");
    m.extracted_links = Some(
        "[{\"url\":\"https://github.com/verify?token=1\",\"domain\":\"github.com\",\"is_safe\":true},{\"domain\":\"x\"},\"https://b/confirm\"]"
            .to_string(),
    );
    match wait_report(Some(&m), 30) {
        WaitReport::Received { links, .. } => {
            assert_eq!(links, vec!["https://github.com/verify?token=1", "https://b/confirm"]);
        }
        _ => panic!("received"),
    }
}

#[test]
fn task_tools_are_planned() {
    let mut args = no_args();
    args.action = Some("fix_bug".to_string());
    args.repository = Some("RABNEER/EstateFlow".to_string());
    args.priority = Some("High".to_string());
    args.evidence = Some(vec!["tests/property-search.spec.ts:87".to_string()]);
    match plan_of("dispatch_agent_task", args) {
        ToolPlan::DispatchTask { action, repository, branch, priority, description, evidence, .. } => {
            assert_eq!(action, "fix_bug");
            assert_eq!(repository, Some("RABNEER/EstateFlow".to_string()));
            assert_eq!(branch, None);
            assert_eq!(priority, TaskPriority::High);
            assert_eq!(description, "");
            assert_eq!(evidence, Some(vec!["tests/property-search.spec.ts:87".to_string()]));
        }
        _ => panic!("a dispatch"),
    }
    match plan_of("dispatch_agent_task", { let mut a = no_args(); a.action = Some("x".to_string()); a }) {
        ToolPlan::DispatchTask { priority, .. } => assert_eq!(priority, TaskPriority::Normal),
        _ => panic!("a dispatch"),
    }
    match plan_of("list_agent_tasks", no_args()) {
        ToolPlan::ListTasks { status, limit } => {
            assert_eq!(status, None);
            assert_eq!(limit, 50);
        }
        _ => panic!("a listing"),
    }
    let mut upd = no_args();
    upd.task_id = Some("task_1".to_string());
    upd.status = Some("pr_opened".to_string());
    upd.note = Some("done".to_string());
    match plan_of("update_task_progress", upd) {
        ToolPlan::UpdateTask { task_id, status, note, commit_sha, .. } => {
            assert_eq!(task_id, "task_1");
            assert_eq!(status, "pr_opened");
            assert_eq!(note, Some("done".to_string()));
            assert_eq!(commit_sha, None);
        }
        _ => panic!("an update"),
    }
    let mut done = no_args();
    done.task_id = Some("task_1".to_string());
    match plan_of("complete_agent_task", done) {
        ToolPlan::CompleteTask { summary, .. } => assert_eq!(summary, ""),
        _ => panic!("a completion"),
    }
}

#[test]
fn task_tools_name_their_missing_argument() {
    let err = |name: &str, args: ToolArgs| match plan_tool(Some(name.to_string()), args, "d") {
        Err(e) => e,
        Ok(_) => panic!("{} must be refused", name),
    };
    assert_eq!(err("dispatch_agent_task", no_args()), "Missing action");
    assert_eq!(err("claim_agent_task", no_args()), "Missing task_id");
    assert_eq!(err("get_task_audit_trail", no_args()), "Missing task_id");
    assert_eq!(err("update_task_progress", no_args()), "Missing task_id");
    let mut only_task = no_args();
    only_task.task_id = Some("t".to_string());
    assert_eq!(err("update_task_progress", only_task), "Missing status");
}

#[test]
fn calls_are_authorized_by_token_status_and_scope() {
    let otp = {
        let mut a = no_args();
        a.account_id = Some("acc_a".to_string());
        plan_of("get_latest_otp", a)
    };
    assert_eq!(required_scope(&otp), "otp.read");
    // Without a token the mail tools stay open, the task tools do not.
    assert!(matches!(authorize(&otp, false, None), Ok(None)));
    let list = plan_of("list_agent_tasks", no_args());
    assert_eq!(
        authorize(&list, false, None).err(),
        Some("Unauthorized: agent_token required".to_string())
    );
    assert_eq!(
        authorize(&otp, true, None).err(),
        Some("Unauthorized: invalid agent_token".to_string())
    );
    let reader = identity("agent_a_1", "agent-a@test.agentbox", "[\"inbox.read\",\"otp.read\"]", "active");
    match authorize(&otp, true, Some(reader)) {
        Ok(Some(a)) => assert_eq!(a.id, "agent_a_1"),
        _ => panic!("a reader may read codes"),
    }
    let revoked = identity("agent_a_1", "agent-a@test.agentbox", "[\"inbox.read\",\"otp.read\"]", "revoked");
    let msg = authorize(&otp, true, Some(revoked)).err().unwrap();
    assert_eq!(msg, "Unauthorized: agent identity 'agent_a_1' is revoked");
    assert!(msg.contains("revoked"));
    let send = {
        let mut a = no_args();
        a.account_id = Some("acc_a".to_string());
        a.to = Some("target@example.com".to_string());
        plan_of("send_agent_email", a)
    };
    let reader = identity("agent_a_1", "agent-a@test.agentbox", "[\"inbox.read\",\"otp.read\"]", "active");
    let denied = authorize(&send, true, Some(reader)).err().unwrap();
    assert_eq!(denied, "PermissionDenied: agent 'agent_a_1' lacks capability 'email.send'");
    let admin = identity("agent_root_1", "root@test.agentbox", "[\"*\"]", "active");
    assert!(matches!(authorize(&send, true, Some(admin)), Ok(Some(_))));
    let prefixed = identity("agent_c_1", "c@test.agentbox", "[\" agentbox.task.read \"]", "active");
    assert!(matches!(authorize(&list, true, Some(prefixed)), Ok(Some(_))));
}

#[test]
fn agents_reach_only_their_own_inboxes() {
    let a = identity("agent_a_1", "agent-a@test.agentbox", "[\"otp.read\"]", "active");
    let own = inbox("acc_a", "agent-a@test.agentbox", Some("agent_a_1"));
    let other = inbox("acc_b", "agent-b@test.agentbox", Some("agent_b_1"));
    let agent = Some(a);
    assert_eq!(ownership_check(&agent, Some(&own), "acc_a"), Ok(()));
    let denied = ownership_check(&agent, Some(&other), "acc_b").err().unwrap();
    assert_eq!(denied, "AccessDenied: agent 'agent_a_1' may not access account 'acc_b'");
    assert!(ownership_check(&agent, None, "acc_x").unwrap_err().contains("AccessDenied"));
    assert_eq!(ownership_check(&None, Some(&other), "acc_b"), Ok(()));
    assert_eq!(inbox_owner(&agent), Some("agent_a_1".to_string()));
    assert_eq!(inbox_owner(&None), None);
}

#[test]
fn responses_echo_the_request_identifier() {
    let r = respond(42u64, McpReply::ToolText("{}".to_string()));
    assert_eq!(r.jsonrpc, "2.0");
    assert_eq!(r.id, 42);
    match r.reply {
        McpReply::ToolText(t) => assert_eq!(t, "{}"),
        _ => panic!("the reply is kept"),
    }
}
