use agentbox_mail::api::TestConnectionDto;
use agentbox_mail::setup::{
    docker_state, probe_start, probe_step, run_reply, socket_address_text, stalwart_admin_url,
    stalwart_run_command, start_reply, ConnectionProbe, ProbeAction, ProbeEvent, ProbeProtocol,
    RunOutcome,
};

fn request(protocol: Option<&str>) -> TestConnectionDto {
    TestConnectionDto {
        protocol: protocol.map(|p| p.to_string()),
        host: "imap.example.com".to_string(),
        port: 993,
        username: "u".to_string(),
        password: "p".to_string(),
    }
}

fn finish(a: ProbeAction) -> (bool, Option<u64>, String) {
    match a {
        ProbeAction::Finish(o) => (o.success, o.latency_ms, o.text),
        _ => panic!("the test must be over"),
    }
}

fn step(p: ConnectionProbe, e: ProbeEvent) -> (ConnectionProbe, ProbeAction) {
    probe_step(p, e)
}

#[test]
fn imap_test_walks_all_stages() {
    let (p, a) = probe_start(request(None));
    assert_eq!(p.protocol, ProbeProtocol::Imap);
    match a {
        ProbeAction::Connect { address } => assert_eq!(address, "imap.example.com:993"),
        _ => panic!("connect first"),
    }
    let (p, a) = step(p, ProbeEvent::TcpConnected { latency_ms: 10 });
    assert!(matches!(a, ProbeAction::CheckName { ref host } if host == "imap.example.com"));
    let (p, a) = step(p, ProbeEvent::NameAccepted);
    assert!(matches!(a, ProbeAction::Handshake));
    let (p, a) = step(p, ProbeEvent::TlsReady);
    assert!(matches!(a, ProbeAction::Login { ref username, ref password } if username == "u" && password == "p"));
    let (_, a) = step(p, ProbeEvent::LoginAccepted { latency_ms: 142 });
    assert_eq!(
        finish(a),
        (true, Some(142), "Successfully connected and authenticated to imap.example.com:993 in 142ms!".to_string())
    );
}

#[test]
fn imap_failures() {
    let (p, _) = probe_start(request(Some("imap")));
    let (_, a) = step(p, ProbeEvent::TcpFailed { error: "refused".to_string() });
    assert_eq!(finish(a), (false, None, "Could not connect to imap.example.com:993: refused".to_string()));
    let (p, _) = probe_start(request(None));
    let (_, a) = step(p, ProbeEvent::TcpTimedOut);
    assert_eq!(finish(a).2, "Connection to imap.example.com:993 timed out after 6s");
    let (p, _) = probe_start(request(None));
    let (p, _) = step(p, ProbeEvent::TcpConnected { latency_ms: 1 });
    let (_, a) = step(p, ProbeEvent::NameRefused { error: "bad".to_string() });
    assert_eq!(finish(a).2, "Invalid host name: bad");
    let (p, _) = probe_start(request(None));
    let (p, _) = step(p, ProbeEvent::TcpConnected { latency_ms: 1 });
    let (p, _) = step(p, ProbeEvent::NameAccepted);
    let (_, a) = step(p, ProbeEvent::TlsFailed { error: "cert".to_string() });
    assert_eq!(finish(a).2, "TLS Handshake failed with imap.example.com: cert");
    let (p, _) = probe_start(request(None));
    let (p, _) = step(p, ProbeEvent::TcpConnected { latency_ms: 1 });
    let (p, _) = step(p, ProbeEvent::NameAccepted);
    let (p, _) = step(p, ProbeEvent::TlsReady);
    let (_, a) = step(p, ProbeEvent::LoginRefused { error: "NO".to_string() });
    assert_eq!(finish(a).2, "IMAP Authentication failed: NO");
}

#[test]
fn smtp_test_only_reaches_the_port() {
    let (p, _) = probe_start(request(Some("smtp")));
    assert_eq!(p.protocol, ProbeProtocol::Smtp);
    let (_, a) = step(p, ProbeEvent::TcpConnected { latency_ms: 7 });
    assert_eq!(finish(a), (true, Some(7), "Successfully reached SMTP port at imap.example.com:993 in 7ms!".to_string()));
    let (p, _) = probe_start(request(Some("pop3")));
    let (_, a) = step(p, ProbeEvent::TcpFailed { error: "x".to_string() });
    assert_eq!(finish(a).2, "Could not reach SMTP server at imap.example.com:993: x");
    let (p, _) = probe_start(request(Some("smtp")));
    let (_, a) = step(p, ProbeEvent::TcpTimedOut);
    assert_eq!(finish(a).2, "SMTP connection to imap.example.com:993 timed out");
}

#[test]
fn stray_events_ask_again() {
    let (p, _) = probe_start(request(None));
    let (p, a) = step(p, ProbeEvent::TlsReady);
    assert!(matches!(a, ProbeAction::Connect { .. }));
    let (_, a) = step(p, ProbeEvent::TcpConnected { latency_ms: 0 });
    assert!(matches!(a, ProbeAction::CheckName { .. }));
    assert_eq!(socket_address_text("h", 0), "h:0");
}

#[test]
fn docker_states() {
    let up = docker_state(true, Some(b"Up 3 hours\n".to_vec()));
    assert!(up.docker_available && up.container_exists && up.container_running);
    let exited = docker_state(true, Some(b"Exited (0) 2 days ago".to_vec()));
    assert!(exited.container_exists && !exited.container_running);
    let blank = docker_state(true, Some(b"  \n".to_vec()));
    assert!(!blank.container_exists && !blank.container_running);
    let no_docker = docker_state(false, Some(b"Up".to_vec()));
    assert!(!no_docker.docker_available && !no_docker.container_exists);
    let lossy = docker_state(true, Some(vec![0xff, b'U', b'P']));
    assert!(lossy.container_running);
    assert_eq!(stalwart_admin_url(), "http://localhost:8080");
    assert!(stalwart_run_command().starts_with("docker run -d --name stalwart"));
}

#[test]
fn start_replies() {
    let s = start_reply(true).unwrap();
    assert_eq!(s.status, "started");
    assert_eq!(s.message.as_deref(), Some("Stalwart Mail Server container started successfully!"));
    assert!(start_reply(false).is_none());
    let c = run_reply(RunOutcome::Succeeded);
    assert_eq!(c.status, "created");
    let f = run_reply(RunOutcome::Failed { stderr: b"no such image".to_vec() });
    assert_eq!((f.status.as_str(), f.error.as_deref()), ("error", Some("no such image")));
    let n = run_reply(RunOutcome::NotStarted { error: "docker missing".to_string() });
    assert_eq!(n.error.as_deref(), Some("docker missing"));
    assert!(n.message.is_none());
}
