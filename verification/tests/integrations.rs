use agentbox_mail::api::{ConnectAgentDto, CreateAgentPayloadDto};
use agentbox_mail::db::AgentIdentityPublic;
use agentbox_mail::integrations::{
    connect_plan, connect_response, connect_result, connect_target, detected_framework,
    framework_probes, general_identity, home_dir, identity_choice, install_targets,
    installed_labels, looked_up_identity, mcp_server_entry, merge_action, merge_written,
    server_command, ConfigDocShape, IdentityChoice, MergeAction,
};

#[test]
fn home_directory_falls_back() {
    assert_eq!(home_dir(Some("C:/Users/a".to_string()), Some("/home/a".to_string())), "C:/Users/a");
    assert_eq!(home_dir(None, Some("/home/a".to_string())), "/home/a");
    assert_eq!(home_dir(None, None), ".");
    assert_eq!(server_command(None), "agentbox-mail.exe");
}

#[test]
fn five_tools_are_probed() {
    let probes = framework_probes("/home/a");
    let ids: Vec<&str> = probes.iter().map(|p| p.id.as_str()).collect();
    assert_eq!(ids, vec!["openclaw", "hermes", "cursor", "antigravity", "windsurf"]);
    assert_eq!(probes[0].config_path, "/home/a/.openclaw/mcp.json");
    assert_eq!(probes[2].config_path, ".cursor/mcp.json");
    assert_eq!(probes[2].markers, vec![".cursor".to_string(), "/home/a/.cursor".to_string()]);
    assert_eq!(probes[4].markers.len(), 1);
}

#[test]
fn detection_needs_any_marker() {
    let probes = framework_probes("/h");
    let found = detected_framework(&probes[2], &vec![false, true]);
    assert!(found.detected);
    assert_eq!(found.status, "Detected (Ready)");
    assert_eq!(found.name, "Cursor");
    let missing = detected_framework(&probes[2], &vec![false, false]);
    assert!(!missing.detected);
    assert_eq!(missing.status, "Available");
}

#[test]
fn every_detected_tool_connects_to_its_shown_file() {
    let probes = framework_probes("/home/u");
    for p in &probes {
        let t = connect_target(&p.id, "/home/u").expect("a shown tool can be connected");
        assert_eq!(t.config_file, p.config_path);
        assert_eq!(t.name, p.name);
    }
}

#[test]
fn connect_targets() {
    let t = connect_target("antigravity", "/h").unwrap();
    assert_eq!(t.config_dir, Some("/h/.gemini/config".to_string()));
    assert_eq!(t.config_file, "/h/.gemini/config/mcp_config.json");
    assert_eq!(t.skill_dir, Some("/h/.gemini/config/skills/agentbox".to_string()));
    let c = connect_target("openclaw", "/h").unwrap();
    assert_eq!(c.config_dir, Some("/h/.openclaw".to_string()));
    assert_eq!(c.config_file, "/h/.openclaw/mcp.json");
    assert!(connect_target("claude_code", "/h").is_none());
    assert!(connect_target("vim", "/h").is_none());
    let plan = connect_plan(&vec!["cursor".to_string(), "vim".to_string(), "hermes".to_string()], "/h");
    assert_eq!(plan.len(), 2);
    assert_eq!(plan[0].framework, "cursor");
    assert_eq!(plan[1].config_file, "/h/.hermes/mcp.json");
}

#[test]
fn results_report_written_configs() {
    let t = connect_target("windsurf", "/h").unwrap();
    let ok = connect_result(&t, true);
    assert_eq!(ok.status, "Connected");
    assert!(ok.verified);
    assert_eq!(ok.path, "/h/.codeium/windsurf/mcp_config.json");
    assert_eq!(connect_result(&t, false).status, "Config Updated");
}

#[test]
fn identity_choices() {
    let create = ConnectAgentDto {
        frameworks: vec![],
        agent_id: Some("ignored".to_string()),
        create_agent: Some(CreateAgentPayloadDto { name: "QA Bot".to_string(), email: None, capabilities: None }),
    };
    match identity_choice(create, "abc123", "x.io") {
        IdentityChoice::Create { name, email, capabilities } => {
            assert_eq!(name, "QA Bot");
            assert_eq!(email, "qa-bot-abc123@x.io");
            assert_eq!(capabilities, vec!["inbox.read", "otp.read", "links.read", "task.claim", "task.update"]);
        }
        _ => panic!("a new agent"),
    }
    let lookup = ConnectAgentDto { frameworks: vec![], agent_id: Some("agent_1".to_string()), create_agent: None };
    match identity_choice(lookup, "s", "x.io") {
        IdentityChoice::Lookup { agent_id } => assert_eq!(agent_id, "agent_1"),
        _ => panic!("a lookup"),
    }
    let none = ConnectAgentDto { frameworks: vec![], agent_id: None, create_agent: None };
    assert!(matches!(identity_choice(none, "s", "x.io"), IdentityChoice::General));
    let g = general_identity("x.io");
    assert_eq!((g.agent_id.as_str(), g.agent_name.as_str(), g.agent_email.as_str()), ("agent_general", "General Agent", "agent@x.io"));
    let d = looked_up_identity(None, "x.io");
    assert_eq!((d.agent_id.as_str(), d.agent_name.as_str(), d.agent_email.as_str()), ("agent_default", "Default Agent", "agent@x.io"));
    let found = AgentIdentityPublic {
        id: "agent_9".to_string(),
        name: "Nine".to_string(),
        email_address: "nine@x.io".to_string(),
        capabilities: "[]".to_string(),
        status: "active".to_string(),
        created_at: 0,
        last_active_at: 0,
    };
    let f = looked_up_identity(Some(found), "x.io");
    assert_eq!(f.agent_email, "nine@x.io");
    let resp = connect_response(f, vec![]);
    assert_eq!(resp.status, "success");
    assert_eq!(resp.agent_id, "agent_9");
}

#[test]
fn server_entries() {
    let e = mcp_server_entry("/bin/agentbox", Some("tok"), "a@x.io");
    assert_eq!(e.command, "/bin/agentbox");
    assert_eq!(e.args, vec!["mcp".to_string()]);
    assert_eq!(e.env, Some(("tok".to_string(), "a@x.io".to_string())));
    assert!(mcp_server_entry("/bin/agentbox", None, "a@x.io").env.is_none());
}

#[test]
fn merge_decisions() {
    assert!(matches!(merge_action(ConfigDocShape::Unreadable), MergeAction::WriteFresh));
    assert!(matches!(merge_action(ConfigDocShape::NotObject), MergeAction::WriteFresh));
    assert!(matches!(merge_action(ConfigDocShape::NoServers), MergeAction::AddServers));
    assert!(matches!(merge_action(ConfigDocShape::ServersObject), MergeAction::SetEntry));
    assert!(matches!(merge_action(ConfigDocShape::ServersOther), MergeAction::Refuse));
    assert!(!merge_written(&MergeAction::Refuse, true));
    assert!(merge_written(&MergeAction::SetEntry, true));
    assert!(!merge_written(&MergeAction::SetEntry, false));
}

#[test]
fn install_targets_and_labels() {
    let targets = install_targets("/h");
    assert_eq!(targets.len(), 2);
    assert_eq!(targets[0].config_file, ".cursor/mcp.json");
    assert_eq!(targets[0].config_dir, Some(".cursor".to_string()));
    assert_eq!(targets[1].config_file, "/h/.gemini/config/mcp_config.json");
    let labels = installed_labels(&targets, &vec![false, true]);
    assert_eq!(labels, vec!["Antigravity IDE (mcp_config.json)"]);
}
