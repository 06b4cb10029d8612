use agentbox_mail::cli::{
    agent_domain, command_or_default, create_address, default_server_args, parse_capability_list,
    server_settings, Commands, CreateArgs, ServerEnv,
};

fn no_env() -> ServerEnv {
    ServerEnv {
        domain: None,
        smtp_host: None,
        smtp_port: None,
        smtp_user: None,
        smtp_pass: None,
        imap_host: None,
        imap_port: None,
        imap_user: None,
        imap_pass: None,
    }
}

#[test]
fn default_server() {
    let a = default_server_args();
    assert_eq!(a.port, 3000);
    assert_eq!(a.host, "0.0.0.0");
    assert_eq!(a.smtp_inbound_port, 2525);
    assert_eq!(a.domain, "apocalypto.in");
    assert_eq!(a.db, "sqlite://agentbox.db?mode=rwc");
    match command_or_default(None) {
        Commands::Server(s) => assert_eq!(s.imap_port, 993),
        _ => panic!("the server runs by default"),
    }
}

#[test]
fn settings_from_arguments_alone() {
    let s = server_settings(default_server_args(), no_env());
    assert_eq!(s.domain, "apocalypto.in");
    assert_eq!(
        s.provisioned,
        vec![
            ("hello@apocalypto.in".to_string(), "Primary Domain Mailbox".to_string()),
            ("agent@apocalypto.in".to_string(), "Autonomous Agent Mailbox".to_string())
        ]
    );
    assert_eq!(s.mailer.smtp_port, 587);
    assert!(s.mailer.smtp_host.is_none());
    assert_eq!(s.smtp_inbound_port, Some(2525));
    assert!(s.imap.is_none());
    assert_eq!(s.bind_address, "0.0.0.0:3000");
}

#[test]
fn environment_fills_in_and_overrides() {
    let mut a = default_server_args();
    a.smtp_host = Some("arg.smtp".to_string());
    a.imap_user = Some("u@x".to_string());
    a.no_smtp = true;
    let mut e = no_env();
    e.domain = Some("env.io".to_string());
    e.smtp_host = Some("env.smtp".to_string());
    e.smtp_port = Some("2587".to_string());
    e.imap_host = Some("imap.env".to_string());
    e.imap_pass = Some("pw".to_string());
    e.imap_port = Some("not a port".to_string());
    let s = server_settings(a, e);
    assert_eq!(s.domain, "env.io");
    assert_eq!(s.mailer.smtp_host, Some("arg.smtp".to_string()));
    assert_eq!(s.mailer.smtp_port, 2587);
    assert_eq!(s.smtp_inbound_port, None);
    let imap = s.imap.expect("host, user and password are all given");
    assert_eq!((imap.host.as_str(), imap.user.as_str(), imap.pass.as_str(), imap.port), ("imap.env", "u@x", "pw", 993));
}

#[test]
fn create_and_agent_helpers() {
    let args = CreateArgs { name: "My Bot".to_string(), address: None, db: "x".to_string() };
    assert_eq!(create_address(&args, "a1b2c3"), "my-bot-a1b2c3@agentbox.io");
    let custom = CreateArgs { name: "n".to_string(), address: Some("c@d".to_string()), db: "x".to_string() };
    assert_eq!(create_address(&custom, "s"), "c@d");
    assert_eq!(parse_capability_list(Some(" inbox.read, otp.read ,".to_string())), vec!["inbox.read", "otp.read", ""]);
    assert_eq!(parse_capability_list(None), vec!["inbox.read", "otp.read", "links.read"]);
    assert_eq!(agent_domain(None), "apocalypto.in");
    assert_eq!(agent_domain(Some("d.io".to_string())), "d.io");
}
