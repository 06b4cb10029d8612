//! Connecting AI tools to the mailbox: which tools are known and where they
//! keep their MCP configuration, how an agent identity is chosen for them,
//! what server entry is written into their configuration, and how an
//! existing configuration document is merged.
use vstd::prelude::*;
use crate::api::{
    catch_all, ConnectAgentDto, ConnectAgentResponse, ConnectResultItem, CreateAgentPayloadDto,
    DetectedFramework, or_default,
};
use crate::db::AgentIdentityPublic;
use crate::ids::{default_inbox_address, inbox_address};
use crate::text::{concat2, copy, opt_view, owned, string_views};

verus! {

// ---------------------------------------------------------------------------
// Where things live
// ---------------------------------------------------------------------------

/// The home directory: `USERPROFILE`, else `HOME`, else the working
/// directory.
pub open spec fn home_dir_spec(userprofile: Option<Seq<char>>, home: Option<Seq<char>>) -> Seq<
    char,
> {
    match userprofile {
        Some(u) => u,
        None => or_default(home, "."@),
    }
}

/// The home directory from the `USERPROFILE` and `HOME` variables.
pub fn home_dir(userprofile: Option<String>, home: Option<String>) -> (r: String)
    ensures
        r@ == home_dir_spec(opt_view(userprofile), opt_view(home)),
{
    match userprofile {
        Some(u) => u,
        None => match home {
            Some(h) => h,
            None => owned("."),
        },
    }
}

/// The command that starts this program, as written into tool
/// configurations: the running executable, else `agentbox-mail.exe`.
pub fn server_command(current_exe: Option<String>) -> (r: String)
    ensures
        r@ == or_default(opt_view(current_exe), "agentbox-mail.exe"@),
{
    match current_exe {
        Some(e) => e,
        None => owned("agentbox-mail.exe"),
    }
}

// ---------------------------------------------------------------------------
// Detection
// ---------------------------------------------------------------------------

/// An AI tool that can be connected: its identifier, name, description,
/// the configuration file it reads, and the paths whose presence shows it
/// is installed.
pub struct FrameworkProbe {
    pub id: String,
    pub name: String,
    pub description: String,
    pub config_path: String,
    pub markers: Vec<String>,
}

/// The texts of a `FrameworkProbe`.
pub struct FrameworkProbeView {
    pub id: Seq<char>,
    pub name: Seq<char>,
    pub description: Seq<char>,
    pub config_path: Seq<char>,
    pub markers: Seq<Seq<char>>,
}

impl View for FrameworkProbe {
    type V = FrameworkProbeView;

    open spec fn view(&self) -> FrameworkProbeView {
        FrameworkProbeView {
            id: self.id@,
            name: self.name@,
            description: self.description@,
            config_path: self.config_path@,
            markers: string_views(self.markers@),
        }
    }
}

/// The probes of the known AI tools for the home directory `home`, in the
/// order they are shown: OpenClaw, Hermes, Cursor, Google Antigravity and
/// Windsurf.
pub open spec fn framework_probes_spec(home: Seq<char>) -> Seq<FrameworkProbeView> {
    seq![
        FrameworkProbeView {
            id: "openclaw"@,
            name: "OpenClaw"@,
            description: "Autonomous browser & multi-modal AI agent platform"@,
            config_path: home + "/.openclaw/mcp.json"@,
            markers: seq![home + "/.openclaw"@, home + "/.openclaw/mcp.json"@],
        },
        FrameworkProbeView {
            id: "hermes"@,
            name: "Hermes"@,
            description: "Autonomous reasoning and coding agent engine"@,
            config_path: home + "/.hermes/mcp.json"@,
            markers: seq![home + "/.hermes"@, home + "/.hermes/mcp.json"@],
        },
        FrameworkProbeView {
            id: "cursor"@,
            name: "Cursor"@,
            description: "AI-first IDE with integrated MCP support"@,
            config_path: ".cursor/mcp.json"@,
            markers: seq![".cursor"@, home + "/.cursor"@],
        },
        FrameworkProbeView {
            id: "antigravity"@,
            name: "Google Antigravity"@,
            description: "Advanced agentic coding & pairing IDE"@,
            config_path: home + "/.gemini/config/mcp_config.json"@,
            markers: seq![home + "/.gemini/config/mcp_config.json"@, home + "/.gemini"@],
        },
        FrameworkProbeView {
            id: "windsurf"@,
            name: "Windsurf"@,
            description: "Codeium's agentic IDE with Cascade flow"@,
            config_path: home + "/.codeium/windsurf/mcp_config.json"@,
            markers: seq![home + "/.codeium/windsurf/mcp_config.json"@],
        },
    ]
}

fn probe(id: &str, name: &str, description: &str, config_path: String, markers: Vec<String>) -> (r:
    FrameworkProbe)
    ensures
        r@ == (FrameworkProbeView {
            id: id@,
            name: name@,
            description: description@,
            config_path: config_path@,
            markers: string_views(markers@),
        }),
{
    FrameworkProbe {
        id: owned(id),
        name: owned(name),
        description: owned(description),
        config_path,
        markers,
    }
}

fn two(a: String, b: String) -> (r: Vec<String>)
    ensures
        string_views(r@) == seq![a@, b@],
{
    let mut r: Vec<String> = Vec::new();
    r.push(a);
    r.push(b);
    assert(string_views(r@) =~= seq![a@, b@]);
    r
}

/// The probes of the known AI tools for the home directory `home`.
pub fn framework_probes(home: &str) -> (r: Vec<FrameworkProbe>)
    ensures
        r@.map_values(|p: FrameworkProbe| p@) == framework_probes_spec(home@),
{
    let mut r: Vec<FrameworkProbe> = Vec::new();
    r.push(
        probe(
            "openclaw",
            "OpenClaw",
            "Autonomous browser & multi-modal AI agent platform",
            concat2(home, "/.openclaw/mcp.json"),
            two(concat2(home, "/.openclaw"), concat2(home, "/.openclaw/mcp.json")),
        ),
    );
    r.push(
        probe(
            "hermes",
            "Hermes",
            "Autonomous reasoning and coding agent engine",
            concat2(home, "/.hermes/mcp.json"),
            two(concat2(home, "/.hermes"), concat2(home, "/.hermes/mcp.json")),
        ),
    );
    r.push(
        probe(
            "cursor",
            "Cursor",
            "AI-first IDE with integrated MCP support",
            owned(".cursor/mcp.json"),
            two(owned(".cursor"), concat2(home, "/.cursor")),
        ),
    );
    r.push(
        probe(
            "antigravity",
            "Google Antigravity",
            "Advanced agentic coding & pairing IDE",
            concat2(home, "/.gemini/config/mcp_config.json"),
            two(concat2(home, "/.gemini/config/mcp_config.json"), concat2(home, "/.gemini")),
        ),
    );
    let mut windsurf_markers: Vec<String> = Vec::new();
    windsurf_markers.push(concat2(home, "/.codeium/windsurf/mcp_config.json"));
    assert(string_views(windsurf_markers@) =~= seq![home@ + "/.codeium/windsurf/mcp_config.json"@]);
    r.push(
        probe(
            "windsurf",
            "Windsurf",
            "Codeium's agentic IDE with Cascade flow",
            concat2(home, "/.codeium/windsurf/mcp_config.json"),
            windsurf_markers,
        ),
    );
    assert(r@.map_values(|p: FrameworkProbe| p@) =~= framework_probes_spec(home@));
    r
}

/// The status text of a tool: ready when found, else available.
pub open spec fn detection_status(detected: bool) -> Seq<char> {
    if detected {
        "Detected (Ready)"@
    } else {
        "Available"@
    }
}

/// The view of a detected tool's fields.
pub open spec fn detected_matches(d: DetectedFramework, p: FrameworkProbeView, detected: bool) -> bool {
    &&& d.id@ == p.id
    &&& d.name@ == p.name
    &&& d.detected == detected
    &&& d.status@ == detection_status(detected)
    &&& d.config_path@ == p.config_path
    &&& d.description@ == p.description
}

/// How a tool is shown, given for each of its marker paths whether it
/// exists: detected when any of them does.
pub fn detected_framework(probe: &FrameworkProbe, marker_found: &Vec<bool>) -> (r: DetectedFramework)
    requires
        marker_found@.len() == probe.markers@.len(),
    ensures
        detected_matches(r, probe@, exists|i: int| 0 <= i < marker_found@.len() && marker_found@[i]),
{
    let mut detected = false;
    let mut i: usize = 0;
    while i < marker_found.len()
        invariant
            i <= marker_found@.len(),
            detected == exists|j: int| 0 <= j < i && marker_found@[j],
        decreases marker_found@.len() - i,
    {
        if marker_found[i] {
            detected = true;
        }
        i = i + 1;
    }
    let status = if detected {
        owned("Detected (Ready)")
    } else {
        owned("Available")
    };
    DetectedFramework {
        id: copy(&probe.id),
        name: copy(&probe.name),
        detected,
        status,
        config_path: copy(&probe.config_path),
        description: copy(&probe.description),
    }
}

// ---------------------------------------------------------------------------
// The agent identity of a connection
// ---------------------------------------------------------------------------

/// The capabilities given to an agent created while connecting tools when
/// the request names none.
pub open spec fn connect_default_capabilities() -> Seq<Seq<char>> {
    seq!["inbox.read"@, "otp.read"@, "links.read"@, "task.claim"@, "task.update"@]
}

/// How the agent identity of a connection is obtained.
pub enum IdentityChoice {
    /// Create an agent with this name, address and capabilities.
    Create { name: String, email: String, capabilities: Vec<String> },
    /// Look up the agent with this identifier.
    Lookup { agent_id: String },
    /// Use the general agent.
    General,
}

/// The identity choice of a connection request, given a random `slug` and
/// the mail domain: a new agent when one is described (its address, else
/// one made from its name; its capabilities, else the default ones); else
/// the named agent; else the general one.
pub open spec fn identity_choice_matches(
    create: Option<CreateAgentPayloadDto>,
    agent_id: Option<String>,
    slug: Seq<char>,
    domain: Seq<char>,
    r: IdentityChoice,
) -> bool {
    match create {
        Some(c) => r matches IdentityChoice::Create { name, email, capabilities } && name@
            == c.name@ && email@ == or_default(opt_view(c.email), inbox_address(c.name@, slug, domain))
            && string_views(capabilities@) == match c.capabilities {
            Some(v) => string_views(v@),
            None => connect_default_capabilities(),
        },
        None => match agent_id {
            Some(a) => r matches IdentityChoice::Lookup { agent_id } && agent_id == a,
            None => r is General,
        },
    }
}

fn default_connect_capabilities() -> (r: Vec<String>)
    ensures
        string_views(r@) == connect_default_capabilities(),
{
    let mut r: Vec<String> = Vec::new();
    r.push(owned("inbox.read"));
    r.push(owned("otp.read"));
    r.push(owned("links.read"));
    r.push(owned("task.claim"));
    r.push(owned("task.update"));
    assert(string_views(r@) =~= connect_default_capabilities());
    r
}

/// The identity choice of a connection request.
pub fn identity_choice(payload: ConnectAgentDto, slug: &str, domain: &str) -> (r: IdentityChoice)
    ensures
        identity_choice_matches(payload.create_agent, payload.agent_id, slug@, domain@, r),
{
    match payload.create_agent {
        Some(c) => {
            let email = match c.email {
                Some(e) => e,
                None => default_inbox_address(c.name.as_str(), slug, domain),
            };
            let capabilities = match c.capabilities {
                Some(v) => v,
                None => default_connect_capabilities(),
            };
            IdentityChoice::Create { name: c.name, email, capabilities }
        },
        None => match payload.agent_id {
            Some(a) => IdentityChoice::Lookup { agent_id: a },
            None => IdentityChoice::General,
        },
    }
}

/// The agent a connection is made for: identifier, name and address.
pub struct ConnectIdentity {
    pub agent_id: String,
    pub agent_name: String,
    pub agent_email: String,
}

/// The identity of a looked-up agent: the agent found, else the default
/// agent at `agent@<domain>`.
pub fn looked_up_identity(found: Option<AgentIdentityPublic>, domain: &str) -> (r: ConnectIdentity)
    ensures
        match found {
            Some(a) => r.agent_id == a.id && r.agent_name == a.name && r.agent_email
                == a.email_address,
            None => r.agent_id@ == "agent_default"@ && r.agent_name@ == "Default Agent"@
                && r.agent_email@ == catch_all(domain@),
        },
{
    match found {
        Some(a) => ConnectIdentity {
            agent_id: a.id,
            agent_name: a.name,
            agent_email: a.email_address,
        },
        None => ConnectIdentity {
            agent_id: owned("agent_default"),
            agent_name: owned("Default Agent"),
            agent_email: concat2("agent@", domain),
        },
    }
}

/// The identity of a connection made for no particular agent.
pub fn general_identity(domain: &str) -> (r: ConnectIdentity)
    ensures
        r.agent_id@ == "agent_general"@,
        r.agent_name@ == "General Agent"@,
        r.agent_email@ == catch_all(domain@),
{
    ConnectIdentity {
        agent_id: owned("agent_general"),
        agent_name: owned("General Agent"),
        agent_email: concat2("agent@", domain),
    }
}

// ---------------------------------------------------------------------------
// Connecting tools
// ---------------------------------------------------------------------------

/// Where a tool's MCP configuration is written: the directory to create
/// first (if any), the file, and for Antigravity the directory the agent
/// skill is copied into.
pub struct ConnectTarget {
    pub framework: String,
    pub name: String,
    pub config_dir: Option<String>,
    pub config_file: String,
    pub skill_dir: Option<String>,
}

/// The texts of a `ConnectTarget`.
pub struct ConnectTargetView {
    pub framework: Seq<char>,
    pub name: Seq<char>,
    pub config_dir: Option<Seq<char>>,
    pub config_file: Seq<char>,
    pub skill_dir: Option<Seq<char>>,
}

impl View for ConnectTarget {
    type V = ConnectTargetView;

    open spec fn view(&self) -> ConnectTargetView {
        ConnectTargetView {
            framework: self.framework@,
            name: self.name@,
            config_dir: opt_view(self.config_dir),
            config_file: self.config_file@,
            skill_dir: opt_view(self.skill_dir),
        }
    }
}

/// Where the tool with identifier `id` is connected for the home directory
/// `home`; `None` for an unknown identifier.
pub open spec fn connect_target_spec(id: Seq<char>, home: Seq<char>) -> Option<ConnectTargetView> {
    if id == "openclaw"@ {
        Some(
            ConnectTargetView {
                framework: id,
                name: "OpenClaw"@,
                config_dir: Some(home + "/.openclaw"@),
                config_file: home + "/.openclaw"@ + "/mcp.json"@,
                skill_dir: None,
            },
        )
    } else if id == "hermes"@ {
        Some(
            ConnectTargetView {
                framework: id,
                name: "Hermes"@,
                config_dir: Some(home + "/.hermes"@),
                config_file: home + "/.hermes"@ + "/mcp.json"@,
                skill_dir: None,
            },
        )
    } else if id == "cursor"@ {
        Some(
            ConnectTargetView {
                framework: id,
                name: "Cursor"@,
                config_dir: Some(".cursor"@),
                config_file: ".cursor/mcp.json"@,
                skill_dir: None,
            },
        )
    } else if id == "antigravity"@ {
        Some(
            ConnectTargetView {
                framework: id,
                name: "Google Antigravity"@,
                config_dir: Some(home + "/.gemini/config"@),
                config_file: home + "/.gemini/config"@ + "/mcp_config.json"@,
                skill_dir: Some(home + "/.gemini/config"@ + "/skills/agentbox"@),
            },
        )
    } else if id == "windsurf"@ {
        Some(
            ConnectTargetView {
                framework: id,
                name: "Windsurf"@,
                config_dir: Some(home + "/.codeium/windsurf"@),
                config_file: home + "/.codeium/windsurf"@ + "/mcp_config.json"@,
                skill_dir: None,
            },
        )
    } else {
        None
    }
}

fn target_in(
    framework: &str,
    name: &str,
    config_dir: String,
    file_name: &str,
    skill_dir: Option<String>,
) -> (r: ConnectTarget)
    ensures
        r@ == (ConnectTargetView {
            framework: framework@,
            name: name@,
            config_dir: Some(config_dir@),
            config_file: config_dir@ + file_name@,
            skill_dir: opt_view(skill_dir),
        }),
{
    let config_file = concat2(config_dir.as_str(), file_name);
    ConnectTarget {
        framework: owned(framework),
        name: owned(name),
        config_dir: Some(config_dir),
        config_file,
        skill_dir,
    }
}

/// Where the tool with identifier `id` is connected.
pub fn connect_target(id: &str, home: &str) -> (r: Option<ConnectTarget>)
    ensures
        match r {
            Some(t) => connect_target_spec(id@, home@) == Some(t@),
            None => connect_target_spec(id@, home@) is None,
        },
{
    if crate::text::str_eq(id, "openclaw") {
        Some(target_in("openclaw", "OpenClaw", concat2(home, "/.openclaw"), "/mcp.json", None))
    } else if crate::text::str_eq(id, "hermes") {
        Some(target_in("hermes", "Hermes", concat2(home, "/.hermes"), "/mcp.json", None))
    } else if crate::text::str_eq(id, "cursor") {
        Some(
            ConnectTarget {
                framework: owned("cursor"),
                name: owned("Cursor"),
                config_dir: Some(owned(".cursor")),
                config_file: owned(".cursor/mcp.json"),
                skill_dir: None,
            },
        )
    } else if crate::text::str_eq(id, "antigravity") {
        let dir = concat2(home, "/.gemini/config");
        let skill = concat2(dir.as_str(), "/skills/agentbox");
        Some(target_in("antigravity", "Google Antigravity", dir, "/mcp_config.json", Some(skill)))
    } else if crate::text::str_eq(id, "windsurf") {
        Some(
            target_in(
                "windsurf",
                "Windsurf",
                concat2(home, "/.codeium/windsurf"),
                "/mcp_config.json",
                None,
            ),
        )
    } else {
        None
    }
}

/// The targets of the known tools among `ids`, in the order asked (an
/// unknown identifier is passed over).
pub open spec fn connect_plan_spec(ids: Seq<Seq<char>>, home: Seq<char>) -> Seq<ConnectTargetView>
    decreases ids.len(),
{
    if ids.len() == 0 {
        Seq::empty()
    } else {
        connect_plan_spec(ids.drop_last(), home) + match connect_target_spec(ids.last(), home) {
            Some(t) => seq![t],
            None => Seq::empty(),
        }
    }
}

/// The targets of the known tools among `ids`, in the order asked.
pub fn connect_plan(ids: &Vec<String>, home: &str) -> (r: Vec<ConnectTarget>)
    ensures
        r@.map_values(|t: ConnectTarget| t@) == connect_plan_spec(string_views(ids@), home@),
{
    let mut r: Vec<ConnectTarget> = Vec::new();
    let mut i: usize = 0;
    while i < ids.len()
        invariant
            i <= ids@.len(),
            r@.map_values(|t: ConnectTarget| t@) == connect_plan_spec(
                string_views(ids@).take(i as int),
                home@,
            ),
        decreases ids@.len() - i,
    {
        let ghost before = r@.map_values(|t: ConnectTarget| t@);
        let ghost names = string_views(ids@);
        assert(names.take(i + 1).drop_last() =~= names.take(i as int));
        assert(names.take(i + 1).last() == ids@[i as int]@);
        match connect_target(ids[i].as_str(), home) {
            Some(t) => {
                r.push(t);
                assert(r@.map_values(|t: ConnectTarget| t@) =~= before.push(t@));
            },
            None => {},
        }
        i = i + 1;
    }
    assert(string_views(ids@).take(i as int) =~= string_views(ids@));
    r
}

/// The outcome shown for a tool: connected when its configuration was
/// written, else updated; always marked verified, with the file's path.
pub fn connect_result(target: &ConnectTarget, written: bool) -> (r: ConnectResultItem)
    ensures
        r.framework@ == target.framework@,
        r.name@ == target.name@,
        r.status@ == (if written {
            "Connected"@
        } else {
            "Config Updated"@
        }),
        r.verified,
        r.path@ == target.config_file@,
{
    ConnectResultItem {
        framework: copy(&target.framework),
        name: copy(&target.name),
        status: if written {
            owned("Connected")
        } else {
            owned("Config Updated")
        },
        verified: true,
        path: copy(&target.config_file),
    }
}

/// The answer to a connection request: success, the agent, the outcomes.
pub fn connect_response(identity: ConnectIdentity, results: Vec<ConnectResultItem>) -> (r:
    ConnectAgentResponse)
    ensures
        r.status@ == "success"@,
        r.agent_id == identity.agent_id,
        r.agent_name == identity.agent_name,
        r.agent_email == identity.agent_email,
        r.results == results,
{
    ConnectAgentResponse {
        status: owned("success"),
        agent_id: identity.agent_id,
        agent_name: identity.agent_name,
        agent_email: identity.agent_email,
        results,
    }
}

// ---------------------------------------------------------------------------
// The MCP server entry and the configuration document
// ---------------------------------------------------------------------------

/// The entry `mcpServers.agentbox` of a tool configuration: the command,
/// its arguments, and, for an agent with a token, the environment that
/// authenticates it (`AGENTBOX_AGENT_TOKEN`, `AGENTBOX_AGENT_EMAIL`).
pub struct McpServerEntry {
    pub command: String,
    pub args: Vec<String>,
    pub env: Option<(String, String)>,
}

/// The server entry written for `command`: `<command> mcp`, with the
/// agent's token and address when a token is given.
pub fn mcp_server_entry(command: &str, token: Option<&str>, email: &str) -> (r: McpServerEntry)
    ensures
        r.command@ == command@,
        string_views(r.args@) == seq!["mcp"@],
        match token {
            Some(t) => r.env matches Some((tok, mail)) && tok@ == t@ && mail@ == email@,
            None => r.env is None,
        },
{
    let mut args: Vec<String> = Vec::new();
    args.push(owned("mcp"));
    assert(string_views(args@) =~= seq!["mcp"@]);
    let env = match token {
        Some(t) => Some((owned(t), owned(email))),
        None => None,
    };
    McpServerEntry { command: owned(command), args, env }
}

/// The shape of an existing tool configuration file, as far as the merge
/// depends on it.
pub enum ConfigDocShape {
    /// No file, or text that is not JSON.
    Unreadable,
    /// JSON that is not an object.
    NotObject,
    /// A JSON object without `mcpServers`.
    NoServers,
    /// A JSON object whose `mcpServers` is an object.
    ServersObject,
    /// A JSON object whose `mcpServers` is something else.
    ServersOther,
}

/// How the server entry is merged into a configuration file.
pub enum MergeAction {
    /// Write `{"mcpServers": {"agentbox": entry}}`, replacing the file.
    WriteFresh,
    /// Add `"mcpServers": {"agentbox": entry}` to the document.
    AddServers,
    /// Set `mcpServers.agentbox` to the entry in the document.
    SetEntry,
    /// Leave the file alone: its `mcpServers` cannot hold the entry.
    Refuse,
}

/// How the server entry is merged into a file of the given shape: a file
/// that is missing, unreadable or not an object is replaced; an object
/// gains `mcpServers` if it has none; an `mcpServers` that is not an
/// object is left alone.
pub fn merge_action(shape: ConfigDocShape) -> (r: MergeAction)
    ensures
        match shape {
            ConfigDocShape::Unreadable | ConfigDocShape::NotObject => r is WriteFresh,
            ConfigDocShape::NoServers => r is AddServers,
            ConfigDocShape::ServersObject => r is SetEntry,
            ConfigDocShape::ServersOther => r is Refuse,
        },
{
    match shape {
        ConfigDocShape::Unreadable => MergeAction::WriteFresh,
        ConfigDocShape::NotObject => MergeAction::WriteFresh,
        ConfigDocShape::NoServers => MergeAction::AddServers,
        ConfigDocShape::ServersObject => MergeAction::SetEntry,
        ConfigDocShape::ServersOther => MergeAction::Refuse,
    }
}

/// Whether the configuration counts as written: the merged document was
/// written successfully; a refused merge writes nothing.
pub fn merge_written(action: &MergeAction, write_ok: bool) -> (r: bool)
    ensures
        r == (!(action is Refuse) && write_ok),
{
    match action {
        MergeAction::Refuse => false,
        _ => write_ok,
    }
}

// ---------------------------------------------------------------------------
// Installing into IDEs
// ---------------------------------------------------------------------------

/// The server entry installed into IDEs: `<command> mcp`, with no agent
/// environment.
pub fn install_server_entry(command: &str) -> (r: McpServerEntry)
    ensures
        r.command@ == command@,
        string_views(r.args@) == seq!["mcp"@],
        r.env is None,
{
    mcp_server_entry(command, None, "agent@apocalypto.in")
}

/// An IDE the server is installed into: its label, the directory to create
/// first (if any), and its configuration file.
pub struct InstallTarget {
    pub label: String,
    pub config_dir: Option<String>,
    pub config_file: String,
}

/// The texts of an `InstallTarget`.
pub struct InstallTargetView {
    pub label: Seq<char>,
    pub config_dir: Option<Seq<char>>,
    pub config_file: Seq<char>,
}

impl View for InstallTarget {
    type V = InstallTargetView;

    open spec fn view(&self) -> InstallTargetView {
        InstallTargetView {
            label: self.label@,
            config_dir: opt_view(self.config_dir),
            config_file: self.config_file@,
        }
    }
}

/// The IDEs the server is installed into, in order: the Cursor workspace
/// and Antigravity.
pub open spec fn install_targets_spec(home: Seq<char>) -> Seq<InstallTargetView> {
    seq![
        InstallTargetView {
            label: "Cursor Workspace (.cursor/mcp.json)"@,
            config_dir: Some(".cursor"@),
            config_file: ".cursor/mcp.json"@,
        },
        InstallTargetView {
            label: "Antigravity IDE (mcp_config.json)"@,
            config_dir: Some(home + "/.gemini/config"@),
            config_file: home + "/.gemini/config"@ + "/mcp_config.json"@,
        },
    ]
}

/// The IDEs the server is installed into.
pub fn install_targets(home: &str) -> (r: Vec<InstallTarget>)
    ensures
        r@.map_values(|t: InstallTarget| t@) == install_targets_spec(home@),
{
    let mut r: Vec<InstallTarget> = Vec::new();
    r.push(
        InstallTarget {
            label: owned("Cursor Workspace (.cursor/mcp.json)"),
            config_dir: Some(owned(".cursor")),
            config_file: owned(".cursor/mcp.json"),
        },
    );
    let dir = concat2(home, "/.gemini/config");
    let file = concat2(dir.as_str(), "/mcp_config.json");
    r.push(
        InstallTarget {
            label: owned("Antigravity IDE (mcp_config.json)"),
            config_dir: Some(dir),
            config_file: file,
        },
    );
    assert(r@.map_values(|t: InstallTarget| t@) =~= install_targets_spec(home@));
    r
}

/// The labels of the targets whose configuration was written, in order.
pub open spec fn installed_labels_spec(targets: Seq<InstallTargetView>, written: Seq<bool>) -> Seq<
    Seq<char>,
>
    decreases targets.len(),
{
    if targets.len() == 0 || written.len() == 0 {
        Seq::empty()
    } else {
        installed_labels_spec(targets.drop_last(), written.drop_last()) + if written.last() {
            seq![targets.last().label]
        } else {
            Seq::empty()
        }
    }
}

/// The labels of the targets whose configuration was written.
pub fn installed_labels(targets: &Vec<InstallTarget>, written: &Vec<bool>) -> (r: Vec<String>)
    requires
        written@.len() == targets@.len(),
    ensures
        string_views(r@) == installed_labels_spec(
            targets@.map_values(|t: InstallTarget| t@),
            written@,
        ),
{
    let ghost views = targets@.map_values(|t: InstallTarget| t@);
    let mut r: Vec<String> = Vec::new();
    let mut i: usize = 0;
    while i < targets.len()
        invariant
            i <= targets@.len(),
            written@.len() == targets@.len(),
            views == targets@.map_values(|t: InstallTarget| t@),
            string_views(r@) == installed_labels_spec(views.take(i as int), written@.take(i as int)),
        decreases targets@.len() - i,
    {
        let ghost before = string_views(r@);
        assert(views.take(i + 1).drop_last() =~= views.take(i as int));
        assert(written@.take(i + 1).drop_last() =~= written@.take(i as int));
        assert(views.take(i + 1).last() == targets@[i as int]@);
        if written[i] {
            r.push(copy(&targets[i].label));
            assert(string_views(r@) =~= before.push(targets@[i as int].label@));
        }
        i = i + 1;
    }
    assert(views.take(i as int) =~= views);
    assert(written@.take(i as int) =~= written@);
    r
}

/// Every tool the wizard shows can be connected, and connecting it writes
/// the configuration file it is shown with.
pub proof fn law_detected_tools_connect(home: Seq<char>, i: int)
    requires
        0 <= i < framework_probes_spec(home).len(),
    ensures
        connect_target_spec(framework_probes_spec(home)[i].id, home) matches Some(t) && t.framework
            == framework_probes_spec(home)[i].id && t.name == framework_probes_spec(home)[i].name
            && t.config_file == framework_probes_spec(home)[i].config_path,
{
    reveal_strlit("openclaw");
    reveal_strlit("hermes");
    reveal_strlit("cursor");
    reveal_strlit("antigravity");
    reveal_strlit("windsurf");
    reveal_strlit("/.openclaw");
    reveal_strlit("/.openclaw/mcp.json");
    reveal_strlit("/.hermes");
    reveal_strlit("/.hermes/mcp.json");
    reveal_strlit("/mcp.json");
    reveal_strlit("/.gemini/config");
    reveal_strlit("/.gemini/config/mcp_config.json");
    reveal_strlit("/mcp_config.json");
    reveal_strlit("/.codeium/windsurf");
    reveal_strlit("/.codeium/windsurf/mcp_config.json");
    let ps = framework_probes_spec(home);
    assert(home + "/.openclaw"@ + "/mcp.json"@ =~= home + "/.openclaw/mcp.json"@);
    assert(home + "/.hermes"@ + "/mcp.json"@ =~= home + "/.hermes/mcp.json"@);
    assert(home + "/.gemini/config"@ + "/mcp_config.json"@ =~= home
        + "/.gemini/config/mcp_config.json"@);
    assert(home + "/.codeium/windsurf"@ + "/mcp_config.json"@ =~= home
        + "/.codeium/windsurf/mcp_config.json"@);
    assert(ps[1].id[0] != "openclaw"@[0]);
    assert(ps[2].id.len() != "openclaw"@.len() && ps[2].id[0] != "hermes"@[0]);
    assert(ps[3].id.len() != "openclaw"@.len() && ps[3].id.len() != "hermes"@.len()
        && ps[3].id.len() != "cursor"@.len());
    assert(ps[4].id[0] != "openclaw"@[0] && ps[4].id.len() != "hermes"@.len() && ps[4].id.len()
        != "cursor"@.len() && ps[4].id.len() != "antigravity"@.len());
}

} // verus!
