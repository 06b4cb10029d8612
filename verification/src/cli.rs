//! The command line: its commands and arguments, the server that runs when
//! no command is given, how the server's settings come from its arguments
//! and the environment, and the inboxes and agents the commands create.
use vstd::prelude::*;
use crate::api::{catch_all, or_default};
use crate::config::env_port;
use crate::engine::outbound::OutboundMailer;
use crate::ids::{default_inbox_address, inbox_address};
use crate::setup::{socket_address, socket_address_text};
use crate::text::{
    chars_of, concat2, opt_view, owned, split_chars, split_on, string_of, string_views,
    trim_chars, trim_ws,
};

verus! {

/// The command line.
pub struct Cli {
    pub command: Option<Commands>,
}

/// The commands.
pub enum Commands {
    /// Start the REST API, the raw SMTP inbound server and the dashboard.
    Server(ServerArgs),
    /// Start the MCP server over standard input and output.
    Mcp(McpArgs),
    /// Create a virtual inbox.
    Create(CreateArgs),
    /// List the inboxes.
    List(ListArgs),
    /// Show the latest OTP code of an inbox.
    Otp(OtpArgs),
}

/// The arguments of `server`.
pub struct ServerArgs {
    pub port: u16,
    pub host: String,
    pub smtp_inbound_port: u16,
    pub no_smtp: bool,
    pub db: String,
    pub domain: String,
    pub smtp_host: Option<String>,
    pub smtp_port: u16,
    pub smtp_user: Option<String>,
    pub smtp_pass: Option<String>,
    pub imap_host: Option<String>,
    pub imap_port: u16,
    pub imap_user: Option<String>,
    pub imap_pass: Option<String>,
}

/// The arguments of `mcp`.
pub struct McpArgs {
    pub db: String,
    pub domain: String,
}

/// The arguments of `create`.
pub struct CreateArgs {
    pub name: String,
    pub address: Option<String>,
    pub db: String,
}

/// The arguments of `list`.
pub struct ListArgs {
    pub db: String,
}

/// The arguments of `otp`.
pub struct OtpArgs {
    pub account: String,
    pub db: String,
}

/// The database used when none is named.
pub open spec fn default_database() -> Seq<char> {
    "sqlite://agentbox.db?mode=rwc"@
}

/// The server that runs when no command is given: the API on
/// `0.0.0.0:3000`, raw SMTP on 2525, the default database, the domain
/// `apocalypto.in`, relay port 587 and IMAP port 993, no credentials.
pub fn default_server_args() -> (r: ServerArgs)
    ensures
        r.port == 3000,
        r.host@ == "0.0.0.0"@,
        r.smtp_inbound_port == 2525,
        !r.no_smtp,
        r.db@ == default_database(),
        r.domain@ == "apocalypto.in"@,
        r.smtp_host is None,
        r.smtp_port == 587,
        r.smtp_user is None,
        r.smtp_pass is None,
        r.imap_host is None,
        r.imap_port == 993,
        r.imap_user is None,
        r.imap_pass is None,
{
    ServerArgs {
        port: 3000,
        host: owned("0.0.0.0"),
        smtp_inbound_port: 2525,
        no_smtp: false,
        db: owned("sqlite://agentbox.db?mode=rwc"),
        domain: owned("apocalypto.in"),
        smtp_host: None,
        smtp_port: 587,
        smtp_user: None,
        smtp_pass: None,
        imap_host: None,
        imap_port: 993,
        imap_user: None,
        imap_pass: None,
    }
}

/// The command to run: the one given, else the default server.
pub fn command_or_default(command: Option<Commands>) -> (r: Commands)
    ensures
        match command {
            Some(c) => r == c,
            None => r matches Commands::Server(a) && a.port == 3000 && a.host@ == "0.0.0.0"@
                && a.smtp_inbound_port == 2525 && !a.no_smtp && a.db@ == default_database()
                && a.domain@ == "apocalypto.in"@ && a.smtp_host is None && a.smtp_port == 587
                && a.smtp_user is None && a.smtp_pass is None && a.imap_host is None && a.imap_port
                == 993 && a.imap_user is None && a.imap_pass is None,
        },
{
    match command {
        Some(c) => c,
        None => Commands::Server(default_server_args()),
    }
}

// ---------------------------------------------------------------------------
// Server settings
// ---------------------------------------------------------------------------

/// The environment variables the server reads.
pub struct ServerEnv {
    pub domain: Option<String>,
    pub smtp_host: Option<String>,
    pub smtp_port: Option<String>,
    pub smtp_user: Option<String>,
    pub smtp_pass: Option<String>,
    pub imap_host: Option<String>,
    pub imap_port: Option<String>,
    pub imap_user: Option<String>,
    pub imap_pass: Option<String>,
}

/// The IMAP account the live sync worker polls.
pub struct ImapSettings {
    pub host: String,
    pub port: u16,
    pub user: String,
    pub pass: String,
}

/// What the server runs with.
pub struct ServerSettings {
    /// The mail domain.
    pub domain: String,
    /// The inboxes made at start-up: address and display name.
    pub provisioned: Vec<(String, String)>,
    /// The outbound relay.
    pub mailer: OutboundMailer,
    /// The port of the raw SMTP server, when it runs.
    pub smtp_inbound_port: Option<u16>,
    /// The IMAP account to sync, when one is fully given.
    pub imap: Option<ImapSettings>,
    /// Where the API listens: `host:port`.
    pub bind_address: String,
}

/// An optional text: the argument when given, else the variable.
pub open spec fn arg_or_env(arg: Option<String>, env: Option<String>) -> Option<Seq<char>> {
    match arg {
        Some(a) => Some(a@),
        None => opt_view(env),
    }
}

fn first_of(arg: Option<String>, env: Option<String>) -> (r: Option<String>)
    ensures
        opt_view(r) == arg_or_env(arg, env),
{
    match arg {
        Some(a) => Some(a),
        None => env,
    }
}

fn port_or(text: &Option<String>, default: u16) -> (r: u16)
    ensures
        r == env_port(opt_view(*text), default),
{
    match text {
        Some(t) => {
            let v = chars_of(t.as_str());
            match crate::text::parse_unsigned(&v, 65535) {
                Some(n) => n as u16,
                None => default,
            }
        },
        None => default,
    }
}

/// The settings of a server started with `args` in environment `env`:
/// - domain: `DOMAIN`, else the argument;
/// - inboxes made at start-up: `hello@<domain>` (the primary domain
///   mailbox) and `agent@<domain>` (the autonomous agent mailbox);
/// - relay: host, user and password from the arguments, else from the
///   environment; port from `SMTP_PORT` when it parses, else the argument;
/// - raw SMTP on its port unless disabled;
/// - IMAP sync when host, user and password are all given (arguments
///   first, then environment), on `IMAP_PORT` when it parses, else the
///   argument's port;
/// - the API on `host:port`.
pub open spec fn settings_match(a: ServerArgs, e: ServerEnv, s: ServerSettings) -> bool {
    let domain = or_default(opt_view(e.domain), a.domain@);
    let imap_host = arg_or_env(a.imap_host, e.imap_host);
    let imap_user = arg_or_env(a.imap_user, e.imap_user);
    let imap_pass = arg_or_env(a.imap_pass, e.imap_pass);
    &&& s.domain@ == domain
    &&& s.provisioned@.map_values(|p: (String, String)| (p.0@, p.1@)) == seq![
        ("hello@"@ + domain, "Primary Domain Mailbox"@),
        (catch_all(domain), "Autonomous Agent Mailbox"@),
    ]
    &&& opt_view(s.mailer.smtp_host) == arg_or_env(a.smtp_host, e.smtp_host)
    &&& s.mailer.smtp_port == env_port(opt_view(e.smtp_port), a.smtp_port)
    &&& opt_view(s.mailer.smtp_user) == arg_or_env(a.smtp_user, e.smtp_user)
    &&& opt_view(s.mailer.smtp_pass) == arg_or_env(a.smtp_pass, e.smtp_pass)
    &&& s.smtp_inbound_port == (if a.no_smtp {
        None
    } else {
        Some(a.smtp_inbound_port)
    })
    &&& match (imap_host, imap_user, imap_pass) {
        (Some(h), Some(u), Some(p)) => s.imap matches Some(i) && i.host@ == h && i.user@ == u
            && i.pass@ == p && i.port == env_port(opt_view(e.imap_port), a.imap_port),
        _ => s.imap is None,
    }
    &&& s.bind_address@ == socket_address(a.host@, a.port)
}

/// The settings of a server started with `args` in environment `env`.
pub fn server_settings(args: ServerArgs, env: ServerEnv) -> (r: ServerSettings)
    ensures
        settings_match(args, env, r),
{
    let smtp_port = port_or(&env.smtp_port, args.smtp_port);
    let imap_port = port_or(&env.imap_port, args.imap_port);
    let domain = match env.domain {
        Some(d) => d,
        None => args.domain,
    };
    let mut provisioned: Vec<(String, String)> = Vec::new();
    provisioned.push((concat2("hello@", domain.as_str()), owned("Primary Domain Mailbox")));
    provisioned.push((concat2("agent@", domain.as_str()), owned("Autonomous Agent Mailbox")));
    assert(provisioned@.map_values(|p: (String, String)| (p.0@, p.1@)) =~= seq![
        ("hello@"@ + domain@, "Primary Domain Mailbox"@),
        (catch_all(domain@), "Autonomous Agent Mailbox"@),
    ]);
    let mailer = OutboundMailer::new(
        first_of(args.smtp_host, env.smtp_host),
        smtp_port,
        first_of(args.smtp_user, env.smtp_user),
        first_of(args.smtp_pass, env.smtp_pass),
    );
    let smtp_inbound_port = if args.no_smtp {
        None
    } else {
        Some(args.smtp_inbound_port)
    };
    let imap_host = first_of(args.imap_host, env.imap_host);
    let imap_user = first_of(args.imap_user, env.imap_user);
    let imap_pass = first_of(args.imap_pass, env.imap_pass);
    let imap = match (imap_host, imap_user, imap_pass) {
        (Some(host), Some(user), Some(pass)) => Some(
            ImapSettings { host, port: imap_port, user, pass },
        ),
        _ => None,
    };
    let bind_address = socket_address_text(args.host.as_str(), args.port);
    ServerSettings { domain, provisioned, mailer, smtp_inbound_port, imap, bind_address }
}

// ---------------------------------------------------------------------------
// Inboxes and agents made from the command line
// ---------------------------------------------------------------------------

/// The address of an inbox made by `create`: the one given, else one made
/// from the name and the random `slug` at `agentbox.io`.
pub fn create_address(args: &CreateArgs, slug: &str) -> (r: String)
    ensures
        r@ == or_default(opt_view(args.address), inbox_address(args.name@, slug@, "agentbox.io"@)),
{
    match &args.address {
        Some(a) => owned(a.as_str()),
        None => default_inbox_address(args.name.as_str(), slug, "agentbox.io"),
    }
}

/// The capabilities of an agent made from the command line: the
/// comma-separated list given, each item trimmed; else inbox, OTP and link
/// reading.
pub open spec fn cli_capabilities(list: Option<Seq<char>>) -> Seq<Seq<char>> {
    match list {
        Some(l) => split_on(l, ',').map_values(|p: Seq<char>| trim_ws(p)),
        None => seq!["inbox.read"@, "otp.read"@, "links.read"@],
    }
}

/// The capabilities of an agent made from the command line.
pub fn parse_capability_list(list: Option<String>) -> (r: Vec<String>)
    ensures
        string_views(r@) == cli_capabilities(opt_view(list)),
{
    match list {
        Some(l) => {
            let v = chars_of(l.as_str());
            let parts = split_chars(&v, ',');
            let ghost pieces = split_on(v@, ',');
            let mut r: Vec<String> = Vec::new();
            let mut i: usize = 0;
            while i < parts.len()
                invariant
                    i <= parts@.len(),
                    parts@.len() == pieces.len(),
                    pieces == split_on(v@, ','),
                    forall|k: int| 0 <= k < parts@.len() ==> #[trigger] parts@[k]@ == pieces[k],
                    string_views(r@) == pieces.take(i as int).map_values(
                        |p: Seq<char>| trim_ws(p),
                    ),
                decreases parts@.len() - i,
            {
                let t = trim_chars(&parts[i]);
                let ghost before = string_views(r@);
                r.push(string_of(&t));
                assert(string_views(r@) =~= before.push(trim_ws(pieces[i as int])));
                assert(pieces.take(i + 1).map_values(|p: Seq<char>| trim_ws(p))
                    =~= pieces.take(i as int).map_values(|p: Seq<char>| trim_ws(p)).push(
                    trim_ws(pieces[i as int]),
                ));
                i = i + 1;
            }
            assert(pieces.take(i as int) =~= pieces);
            r
        },
        None => {
            let mut r: Vec<String> = Vec::new();
            r.push(owned("inbox.read"));
            r.push(owned("otp.read"));
            r.push(owned("links.read"));
            assert(string_views(r@) =~= seq!["inbox.read"@, "otp.read"@, "links.read"@]);
            r
        },
    }
}

/// The domain of agents made from the command line: `DOMAIN`, else
/// `apocalypto.in`.
pub fn agent_domain(env_domain: Option<String>) -> (r: String)
    ensures
        r@ == or_default(opt_view(env_domain), "apocalypto.in"@),
{
    match env_domain {
        Some(d) => d,
        None => owned("apocalypto.in"),
    }
}

} // verus!
