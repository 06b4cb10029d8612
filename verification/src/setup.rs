//! The setup wizard's live checks: the step-by-step test of a mail server
//! connection, and the state of the local Stalwart mail server container.
use vstd::prelude::*;
use crate::api::TestConnectionDto;
use crate::text::{
    concat2, concat3, contains_seq, copy, decimal_string, decimal_text, opt_view, owned,
    str_contains, str_eq, to_lowercase, trim_str, trim_ws, unicode_lowercase, utf8_lossy,
    utf8_lossy_text,
};

verus! {

// ---------------------------------------------------------------------------
// Connection test
// ---------------------------------------------------------------------------

/// The protocol a connection test checks.
#[derive(Clone, Copy, Debug, PartialEq, Eq, Structural)]
pub enum ProbeProtocol {
    /// Connect, check the host name, shake hands over TLS, log in.
    Imap,
    /// Reach the port.
    Smtp,
}

/// Where an IMAP test stands.
#[derive(Clone, Copy, Debug, PartialEq, Eq, Structural)]
pub enum ProbeStage {
    Connecting,
    CheckingName,
    Handshaking,
    LoggingIn,
}

/// A connection test under way.
pub struct ConnectionProbe {
    pub protocol: ProbeProtocol,
    pub stage: ProbeStage,
    pub host: String,
    pub port: u16,
    pub address: String,
    pub username: String,
    pub password: String,
}

/// What the outside work of a step reported.
pub enum ProbeEvent {
    /// The TCP connection was made, `latency_ms` after the test began.
    TcpConnected { latency_ms: u64 },
    /// The TCP connection failed with this error.
    TcpFailed { error: String },
    /// The TCP connection did not complete within six seconds.
    TcpTimedOut,
    /// The host is not a valid TLS server name.
    NameRefused { error: String },
    /// The host is a valid TLS server name.
    NameAccepted,
    /// The TLS handshake failed with this error.
    TlsFailed { error: String },
    /// The TLS session is established.
    TlsReady,
    /// The login succeeded, `latency_ms` after the test began.
    LoginAccepted { latency_ms: u64 },
    /// The login failed with this error.
    LoginRefused { error: String },
}

/// The answer of a connection test: success with the latency and a
/// message, or failure with an error.
pub struct ProbeOutcome {
    pub success: bool,
    pub latency_ms: Option<u64>,
    pub text: String,
}

/// What to do next in a connection test.
pub enum ProbeAction {
    /// Open a TCP connection to this `host:port` address (within six
    /// seconds).
    Connect { address: String },
    /// Check that this host is a valid TLS server name.
    CheckName { host: String },
    /// Shake hands over TLS on the open connection.
    Handshake,
    /// Log in to IMAP with these credentials.
    Login { username: String, password: String },
    /// The test is over.
    Finish(ProbeOutcome),
}

/// The address `host:port`.
pub open spec fn socket_address(host: Seq<char>, port: u16) -> Seq<char> {
    host + ":"@ + decimal_text(port as nat)
}

/// The address `host:port`.
pub fn socket_address_text(host: &str, port: u16) -> (r: String)
    ensures
        r@ == socket_address(host@, port),
{
    let p = decimal_string(port as u64);
    concat3(host, ":", p.as_str())
}

/// The protocol a test request asks for: IMAP unless it names another.
pub open spec fn probe_protocol(protocol: Option<Seq<char>>) -> ProbeProtocol {
    match protocol {
        Some(p) => if p == "imap"@ {
            ProbeProtocol::Imap
        } else {
            ProbeProtocol::Smtp
        },
        None => ProbeProtocol::Imap,
    }
}

/// A test that has not connected yet, for request `d`.
pub open spec fn probe_started(d: TestConnectionDto, p: ConnectionProbe) -> bool {
    &&& p.protocol == probe_protocol(opt_view(d.protocol))
    &&& p.stage == ProbeStage::Connecting
    &&& p.host@ == d.host@
    &&& p.port == d.port
    &&& p.address@ == socket_address(d.host@, d.port)
    &&& p.username@ == d.username@
    &&& p.password@ == d.password@
}

/// Starts the test that request `payload` asks for: its first step is to
/// connect to `host:port`.
pub fn probe_start(payload: TestConnectionDto) -> (r: (ConnectionProbe, ProbeAction))
    ensures
        probe_started(payload, r.0),
        r.1 matches ProbeAction::Connect { address } && address@ == r.0.address@,
{
    let protocol = match &payload.protocol {
        Some(p) => if str_eq(p.as_str(), "imap") {
            ProbeProtocol::Imap
        } else {
            ProbeProtocol::Smtp
        },
        None => ProbeProtocol::Imap,
    };
    let address = socket_address_text(payload.host.as_str(), payload.port);
    let action = ProbeAction::Connect { address: copy(&address) };
    (
        ConnectionProbe {
            protocol,
            stage: ProbeStage::Connecting,
            host: payload.host,
            port: payload.port,
            address,
            username: payload.username,
            password: payload.password,
        },
        action,
    )
}

/// The action a test waits on at its stage (what is asked again when an
/// event does not belong to the stage).
pub open spec fn pending_action(p: ConnectionProbe, a: ProbeAction) -> bool {
    match p.stage {
        ProbeStage::Connecting => a matches ProbeAction::Connect { address } && address@
            == p.address@,
        ProbeStage::CheckingName => a matches ProbeAction::CheckName { host } && host@ == p.host@,
        ProbeStage::Handshaking => a is Handshake,
        ProbeStage::LoggingIn => a matches ProbeAction::Login { username, password } && username@
            == p.username@ && password@ == p.password@,
    }
}

/// A failed test with this error.
pub open spec fn failed_with(a: ProbeAction, error: Seq<char>) -> bool {
    a matches ProbeAction::Finish(o) && !o.success && o.latency_ms is None && o.text@ == error
}

/// A passed test with this latency and message.
pub open spec fn passed_with(a: ProbeAction, latency_ms: u64, message: Seq<char>) -> bool {
    a matches ProbeAction::Finish(o) && o.success && o.latency_ms == Some(latency_ms) && o.text@
        == message
}

/// The next state and action of test `p` on event `e`:
/// - connecting: an IMAP test goes on to check the host name, an SMTP test
///   passes; a failure or a time-out ends the test with its error;
/// - checking the name: a valid name goes on to the TLS handshake;
/// - handshaking: an established session goes on to the login;
/// - logging in: the login's outcome ends the test.
/// An event that does not belong to the stage leaves the test as it is.
pub open spec fn probe_step_spec(
    p: ConnectionProbe,
    e: ProbeEvent,
    q: ConnectionProbe,
    a: ProbeAction,
) -> bool {
    let addr = p.address@;
    let same = q.protocol == p.protocol && q.host@ == p.host@ && q.port == p.port && q.address@
        == addr && q.username@ == p.username@ && q.password@ == p.password@;
    &&& same
    &&& match (p.stage, e) {
        (ProbeStage::Connecting, ProbeEvent::TcpConnected { latency_ms }) => match p.protocol {
            ProbeProtocol::Imap => q.stage == ProbeStage::CheckingName && pending_action(q, a),
            ProbeProtocol::Smtp => q.stage == p.stage && passed_with(
                a,
                latency_ms,
                "Successfully reached SMTP port at "@ + addr + " in "@ + decimal_text(
                    latency_ms as nat,
                ) + "ms!"@,
            ),
        },
        (ProbeStage::Connecting, ProbeEvent::TcpFailed { error }) => q.stage == p.stage
            && failed_with(
            a,
            match p.protocol {
                ProbeProtocol::Imap => "Could not connect to "@ + addr + ": "@ + error@,
                ProbeProtocol::Smtp => "Could not reach SMTP server at "@ + addr + ": "@ + error@,
            },
        ),
        (ProbeStage::Connecting, ProbeEvent::TcpTimedOut) => q.stage == p.stage && failed_with(
            a,
            match p.protocol {
                ProbeProtocol::Imap => "Connection to "@ + addr + " timed out after 6s"@,
                ProbeProtocol::Smtp => "SMTP connection to "@ + addr + " timed out"@,
            },
        ),
        (ProbeStage::CheckingName, ProbeEvent::NameRefused { error }) => q.stage == p.stage
            && failed_with(a, "Invalid host name: "@ + error@),
        (ProbeStage::CheckingName, ProbeEvent::NameAccepted) => q.stage == ProbeStage::Handshaking
            && pending_action(q, a),
        (ProbeStage::Handshaking, ProbeEvent::TlsFailed { error }) => q.stage == p.stage
            && failed_with(a, "TLS Handshake failed with "@ + p.host@ + ": "@ + error@),
        (ProbeStage::Handshaking, ProbeEvent::TlsReady) => q.stage == ProbeStage::LoggingIn
            && pending_action(q, a),
        (ProbeStage::LoggingIn, ProbeEvent::LoginAccepted { latency_ms }) => q.stage == p.stage
            && passed_with(
            a,
            latency_ms,
            "Successfully connected and authenticated to "@ + p.host@ + ":"@ + decimal_text(
                p.port as nat,
            ) + " in "@ + decimal_text(latency_ms as nat) + "ms!"@,
        ),
        (ProbeStage::LoggingIn, ProbeEvent::LoginRefused { error }) => q.stage == p.stage
            && failed_with(a, "IMAP Authentication failed: "@ + error@),
        _ => q.stage == p.stage && pending_action(q, a),
    }
}

fn fail(text: String) -> (r: ProbeAction)
    ensures
        failed_with(r, text@),
{
    ProbeAction::Finish(ProbeOutcome { success: false, latency_ms: None, text })
}

fn pass(latency_ms: u64, text: String) -> (r: ProbeAction)
    ensures
        passed_with(r, latency_ms, text@),
{
    ProbeAction::Finish(ProbeOutcome { success: true, latency_ms: Some(latency_ms), text })
}

fn join4(a: &str, b: &str, c: &str, d: &str) -> (r: String)
    ensures
        r@ == a@ + b@ + c@ + d@,
{
    let x = concat3(a, b, c);
    concat2(x.as_str(), d)
}

fn pending(p: &ConnectionProbe) -> (r: ProbeAction)
    ensures
        pending_action(*p, r),
{
    match p.stage {
        ProbeStage::Connecting => ProbeAction::Connect { address: copy(&p.address) },
        ProbeStage::CheckingName => ProbeAction::CheckName { host: copy(&p.host) },
        ProbeStage::Handshaking => ProbeAction::Handshake,
        ProbeStage::LoggingIn => ProbeAction::Login {
            username: copy(&p.username),
            password: copy(&p.password),
        },
    }
}

/// The next state and action of a connection test on an event.
pub fn probe_step(p: ConnectionProbe, e: ProbeEvent) -> (r: (ConnectionProbe, ProbeAction))
    ensures
        probe_step_spec(p, e, r.0, r.1),
{
    let mut q = p;
    let action = match (q.stage, e) {
        (ProbeStage::Connecting, ProbeEvent::TcpConnected { latency_ms }) => {
            match q.protocol {
                ProbeProtocol::Imap => {
                    q.stage = ProbeStage::CheckingName;
                    pending(&q)
                },
                ProbeProtocol::Smtp => {
                    let ms = decimal_string(latency_ms);
                    let head = concat3("Successfully reached SMTP port at ", q.address.as_str(), " in ");
                    pass(latency_ms, concat3(head.as_str(), ms.as_str(), "ms!"))
                },
            }
        },
        (ProbeStage::Connecting, ProbeEvent::TcpFailed { error }) => {
            match q.protocol {
                ProbeProtocol::Imap => fail(
                    join4("Could not connect to ", q.address.as_str(), ": ", error.as_str()),
                ),
                ProbeProtocol::Smtp => fail(
                    join4("Could not reach SMTP server at ", q.address.as_str(), ": ", error.as_str()),
                ),
            }
        },
        (ProbeStage::Connecting, ProbeEvent::TcpTimedOut) => {
            match q.protocol {
                ProbeProtocol::Imap => fail(
                    concat3("Connection to ", q.address.as_str(), " timed out after 6s"),
                ),
                ProbeProtocol::Smtp => fail(
                    concat3("SMTP connection to ", q.address.as_str(), " timed out"),
                ),
            }
        },
        (ProbeStage::CheckingName, ProbeEvent::NameRefused { error }) => {
            fail(concat2("Invalid host name: ", error.as_str()))
        },
        (ProbeStage::CheckingName, ProbeEvent::NameAccepted) => {
            q.stage = ProbeStage::Handshaking;
            pending(&q)
        },
        (ProbeStage::Handshaking, ProbeEvent::TlsFailed { error }) => {
            fail(join4("TLS Handshake failed with ", q.host.as_str(), ": ", error.as_str()))
        },
        (ProbeStage::Handshaking, ProbeEvent::TlsReady) => {
            q.stage = ProbeStage::LoggingIn;
            pending(&q)
        },
        (ProbeStage::LoggingIn, ProbeEvent::LoginAccepted { latency_ms }) => {
            let port = decimal_string(q.port as u64);
            let ms = decimal_string(latency_ms);
            let head = join4(
                "Successfully connected and authenticated to ",
                q.host.as_str(),
                ":",
                port.as_str(),
            );
            pass(latency_ms, join4(head.as_str(), " in ", ms.as_str(), "ms!"))
        },
        (ProbeStage::LoggingIn, ProbeEvent::LoginRefused { error }) => {
            fail(concat2("IMAP Authentication failed: ", error.as_str()))
        },
        _ => pending(&q),
    };
    (q, action)
}

/// How far a test has come: connecting, then checking the name, then
/// handshaking, then logging in.
pub open spec fn stage_rank(s: ProbeStage) -> int {
    match s {
        ProbeStage::Connecting => 0,
        ProbeStage::CheckingName => 1,
        ProbeStage::Handshaking => 2,
        ProbeStage::LoggingIn => 3,
    }
}

/// Whether an event answers the work of this stage.
pub open spec fn event_fits(s: ProbeStage, e: ProbeEvent) -> bool {
    match s {
        ProbeStage::Connecting => e is TcpConnected || e is TcpFailed || e is TcpTimedOut,
        ProbeStage::CheckingName => e is NameRefused || e is NameAccepted,
        ProbeStage::Handshaking => e is TlsFailed || e is TlsReady,
        ProbeStage::LoggingIn => e is LoginAccepted || e is LoginRefused,
    }
}

/// A connection test always ends: each answer to the work asked either
/// ends the test or moves it to a later stage (so a test ends within four
/// steps), and an SMTP test ends on its first answer.
pub proof fn law_probe_ends(p: ConnectionProbe, e: ProbeEvent, q: ConnectionProbe, a: ProbeAction)
    requires
        probe_step_spec(p, e, q, a),
        event_fits(p.stage, e),
    ensures
        a is Finish || stage_rank(q.stage) > stage_rank(p.stage),
        p.protocol == ProbeProtocol::Smtp && p.stage == ProbeStage::Connecting ==> a is Finish,
        !(a is Finish) ==> q.stage != ProbeStage::Connecting,
{
}

// ---------------------------------------------------------------------------
// The Stalwart container
// ---------------------------------------------------------------------------

/// Whether Docker and the Stalwart container are there.
pub struct DockerState {
    pub docker_available: bool,
    pub container_exists: bool,
    pub container_running: bool,
}

/// The state shown for Docker: whether the `docker` command ran, and from
/// the status text `docker ps` printed for the container (none when it did
/// not run), whether the container exists (the text is not blank) and runs
/// (its lowercase holds `up`).
pub fn docker_state(docker_available: bool, status_output: Option<Vec<u8>>) -> (r: DockerState)
    ensures
        r.docker_available == docker_available,
        r.container_running ==> r.container_exists,
        r.container_exists ==> r.docker_available,
        match status_output {
            Some(out) if docker_available => {
                let text = utf8_lossy_text(out@);
                &&& r.container_exists == (trim_ws(text).len() > 0)
                &&& r.container_running == (trim_ws(text).len() > 0 && contains_seq(
                    unicode_lowercase(text),
                    "up"@,
                ))
            },
            _ => !r.container_exists && !r.container_running,
        },
{
    let mut exists = false;
    let mut running = false;
    if docker_available {
        match status_output {
            Some(out) => {
                let status = utf8_lossy(out.as_slice());
                let trimmed = trim_str(status.as_str());
                if trimmed.as_str().unicode_len() > 0 {
                    exists = true;
                    let lower = to_lowercase(status.as_str());
                    if str_contains(lower.as_str(), "up") {
                        running = true;
                    }
                }
            },
            None => {},
        }
    }
    DockerState { docker_available, container_exists: exists, container_running: running }
}

/// The command that creates the Stalwart container.
pub fn stalwart_run_command() -> (r: String)
    ensures
        r@
            == "docker run -d --name stalwart -p 25:25 -p 465:465 -p 587:587 -p 993:993 -p 8080:8080 stalwartlabs/mail-server"@,
{
    owned(
        "docker run -d --name stalwart -p 25:25 -p 465:465 -p 587:587 -p 993:993 -p 8080:8080 stalwartlabs/mail-server",
    )
}

/// The address of Stalwart's administration page.
pub fn stalwart_admin_url() -> (r: String)
    ensures
        r@ == "http://localhost:8080"@,
{
    owned("http://localhost:8080")
}

/// The answer to a request to start the container.
pub struct StartReply {
    pub status: String,
    pub message: Option<String>,
    pub error: Option<String>,
}

/// How running a fresh container went.
pub enum RunOutcome {
    /// `docker run` succeeded.
    Succeeded,
    /// `docker run` exited with failure and printed this on its error
    /// stream.
    Failed { stderr: Vec<u8> },
    /// `docker run` could not be started, with this error.
    NotStarted { error: String },
}

/// The answer when `docker start stalwart` succeeded; `None` when it did
/// not, and a fresh container is to be run.
pub fn start_reply(start_succeeded: bool) -> (r: Option<StartReply>)
    ensures
        start_succeeded ==> (r matches Some(s) && s.status@ == "started"@ && opt_view(s.message)
            == Some("Stalwart Mail Server container started successfully!"@) && s.error is None),
        !start_succeeded ==> r is None,
{
    if start_succeeded {
        Some(
            StartReply {
                status: owned("started"),
                message: Some(owned("Stalwart Mail Server container started successfully!")),
                error: None,
            },
        )
    } else {
        None
    }
}

/// The answer after running a fresh container: created, or an error with
/// what `docker` printed or the reason it could not run.
pub fn run_reply(outcome: RunOutcome) -> (r: StartReply)
    ensures
        match outcome {
            RunOutcome::Succeeded => r.status@ == "created"@ && opt_view(r.message) == Some(
                "Stalwart Mail Server container launched in Docker!"@,
            ) && r.error is None,
            RunOutcome::Failed { stderr } => r.status@ == "error"@ && r.message is None
                && opt_view(r.error) == Some(utf8_lossy_text(stderr@)),
            RunOutcome::NotStarted { error } => r.status@ == "error"@ && r.message is None
                && opt_view(r.error) == Some(error@),
        },
{
    match outcome {
        RunOutcome::Succeeded => StartReply {
            status: owned("created"),
            message: Some(owned("Stalwart Mail Server container launched in Docker!")),
            error: None,
        },
        RunOutcome::Failed { stderr } => StartReply {
            status: owned("error"),
            message: None,
            error: Some(utf8_lossy(stderr.as_slice())),
        },
        RunOutcome::NotStarted { error } => StartReply {
            status: owned("error"),
            message: None,
            error: Some(error),
        },
    }
}

} // verus!
