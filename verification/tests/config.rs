use agentbox_mail::api::ConfigDto;
use agentbox_mail::config::{
    activated_config_pairs, config_from_env, env_file_entries, saved_config_pairs,
    saved_config_text, ConfigEnv,
};

fn empty_env() -> ConfigEnv {
    ConfigEnv {
        domain: None,
        primary_email: None,
        agent_name: None,
        imap_host: None,
        imap_port: None,
        imap_user: None,
        imap_pass: None,
        smtp_host: None,
        smtp_port: None,
        smtp_user: None,
        smtp_pass: None,
    }
}

fn sample_config() -> ConfigDto {
    ConfigDto {
        domain: "apocalypto.in".to_string(),
        primary_email: "hello@apocalypto.in".to_string(),
        agent_name: Some("agent".to_string()),
        imap_host: Some("imap.hostinger.com".to_string()),
        imap_port: Some(993),
        imap_user: Some("hello@apocalypto.in".to_string()),
        imap_pass: Some(" secret ".to_string()),
        has_imap_pass: None,
        smtp_host: Some("smtp.hostinger.com".to_string()),
        smtp_port: None,
        smtp_user: None,
        smtp_pass: Some("   ".to_string()),
        has_smtp_pass: None,
        configured: None,
    }
}

fn lookup(entries: &[(String, String)], key: &str) -> Option<String> {
    entries.iter().rev().find(|(k, _)| k == key).map(|(_, v)| v.clone())
}

#[test]
fn empty_environment_shows_defaults() {
    let c = config_from_env(empty_env(), "agentbox.io");
    assert_eq!(c.domain, "agentbox.io");
    assert_eq!(c.primary_email, "agent@agentbox.io");
    assert_eq!(c.imap_port, Some(993));
    assert_eq!(c.smtp_port, Some(587));
    assert_eq!(c.has_imap_pass, Some(false));
    assert_eq!(c.has_smtp_pass, Some(false));
    assert_eq!(c.configured, Some(false));
    assert_eq!(c.imap_pass, None);
}

#[test]
fn environment_values_are_shown_and_ports_parsed() {
    let mut env = empty_env();
    env.domain = Some("example.org".to_string());
    env.imap_port = Some("+1143".to_string());
    env.smtp_port = Some("70000".to_string());
    env.smtp_host = Some("smtp.example.org".to_string());
    env.imap_pass = Some("  \t ".to_string());
    env.smtp_pass = Some("pw".to_string());
    let c = config_from_env(env, "agentbox.io");
    assert_eq!(c.domain, "example.org");
    assert_eq!(c.primary_email, "agent@example.org");
    assert_eq!(c.imap_port, Some(1143));
    assert_eq!(c.smtp_port, Some(587));
    assert_eq!(c.has_imap_pass, Some(false));
    assert_eq!(c.has_smtp_pass, Some(true));
    assert_eq!(c.smtp_pass, None);
    assert_eq!(c.configured, Some(true));
}

#[test]
fn saved_file_lists_variables_in_order() {
    let text = saved_config_text(&sample_config());
    assert_eq!(
        text,
        "DOMAIN=apocalypto.in\nPRIMARY_EMAIL=hello@apocalypto.in\nAGENT_NAME=agent\nPORT=3000\n\
SMTP_INBOUND_PORT=2525\nDATABASE_URL=sqlite://agentbox.db?mode=rwc\nIMAP_HOST=imap.hostinger.com\n\
IMAP_PORT=993\nIMAP_USER=hello@apocalypto.in\nIMAP_PASS= secret \nSMTP_HOST=smtp.hostinger.com"
    );
    assert_eq!(saved_config_pairs(&sample_config()).len(), 11);
}

#[test]
fn activation_sets_no_name_and_no_local_ports() {
    let pairs = activated_config_pairs(&sample_config());
    let keys: Vec<&str> = pairs.iter().map(|(k, _)| k.as_str()).collect();
    assert_eq!(
        keys,
        vec!["DOMAIN", "PRIMARY_EMAIL", "IMAP_HOST", "IMAP_PORT", "IMAP_USER", "IMAP_PASS", "SMTP_HOST"]
    );
    assert_eq!(pairs[3].1, "993");
}

#[test]
fn env_file_loader_skips_comments_blank_and_bare_lines() {
    let entries = env_file_entries("# comment\n\n  KEY = value  \r\nNOEQUALS\nA=b=c\n");
    assert_eq!(
        entries,
        vec![("KEY".to_string(), "value".to_string()), ("A".to_string(), "b=c".to_string())]
    );
}

#[test]
fn saved_configuration_reads_back() {
    let saved = sample_config();
    let entries = env_file_entries(&saved_config_text(&saved));
    let env = ConfigEnv {
        domain: lookup(&entries, "DOMAIN"),
        primary_email: lookup(&entries, "PRIMARY_EMAIL"),
        agent_name: lookup(&entries, "AGENT_NAME"),
        imap_host: lookup(&entries, "IMAP_HOST"),
        imap_port: lookup(&entries, "IMAP_PORT"),
        imap_user: lookup(&entries, "IMAP_USER"),
        imap_pass: lookup(&entries, "IMAP_PASS"),
        smtp_host: lookup(&entries, "SMTP_HOST"),
        smtp_port: lookup(&entries, "SMTP_PORT"),
        smtp_user: lookup(&entries, "SMTP_USER"),
        smtp_pass: lookup(&entries, "SMTP_PASS"),
    };
    let shown = config_from_env(env, "fallback.example");
    assert_eq!(shown.domain, "apocalypto.in");
    assert_eq!(shown.primary_email, "hello@apocalypto.in");
    assert_eq!(shown.agent_name, Some("agent".to_string()));
    assert_eq!(shown.imap_host, Some("imap.hostinger.com".to_string()));
    assert_eq!(shown.imap_port, Some(993));
    assert_eq!(shown.imap_user, Some("hello@apocalypto.in".to_string()));
    assert_eq!(shown.has_imap_pass, Some(true));
    assert_eq!(shown.smtp_host, Some("smtp.hostinger.com".to_string()));
    assert_eq!(shown.smtp_port, Some(587));
    assert_eq!(shown.smtp_user, None);
    assert_eq!(shown.has_smtp_pass, Some(false));
    assert_eq!(shown.configured, Some(true));
}
