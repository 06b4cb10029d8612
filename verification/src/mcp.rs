//! The decisions of the MCP server: which JSON-RPC methods it answers and
//! how, the tools it offers, how a tool call is checked and planned, how
//! an inbox is named by identifier or address, and how waiting for mail
//! polls and ends.
use vstd::prelude::*;
use crate::db::{owns, stored_links, verify_resource_ownership, Account, AgentIdentity, Message, message_link_urls};
use crate::bindings::{json_to_strings, strings_of_json};
use crate::engine::capabilities::{allows_scope, scope_allowed, scope_texts};
use crate::engine::tasks::{priority_from_lower, TaskPriority};
use crate::engine::outbound::SendEmailRequest;
use crate::ids::{default_inbox_address, fresh_slug, inbox_address};
use crate::api::or_default;
use crate::text::{
    chars_of, concat2, concat3, contains_char, copy, copy_opt, decimal_string, decimal_text,
    opt_view, owned, str_contains_char, str_eq, string_views, trim_chars, trim_ws,
    unicode_lowercase,
};
use crate::bindings::is_lower_hex;

verus! {

// ---------------------------------------------------------------------------
// Methods and replies
// ---------------------------------------------------------------------------

/// A JSON-RPC method as the server tells them apart.
#[derive(Clone, Copy, Debug, PartialEq, Eq, Structural)]
pub enum McpMethod {
    Initialize,
    ToolsList,
    ToolsCall,
    Unknown,
}

/// The method named `method`.
pub open spec fn method_of(method: Seq<char>) -> McpMethod {
    if method == "initialize"@ {
        McpMethod::Initialize
    } else if method == "tools/list"@ {
        McpMethod::ToolsList
    } else if method == "tools/call"@ {
        McpMethod::ToolsCall
    } else {
        McpMethod::Unknown
    }
}

/// The method named `method`.
pub fn classify_method(method: &str) -> (r: McpMethod)
    ensures
        r == method_of(method@),
{
    if str_eq(method, "initialize") {
        McpMethod::Initialize
    } else if str_eq(method, "tools/list") {
        McpMethod::ToolsList
    } else if str_eq(method, "tools/call") {
        McpMethod::ToolsCall
    } else {
        McpMethod::Unknown
    }
}

/// A parameter of a tool: its name, JSON type and description.
pub struct ToolParam {
    pub name: String,
    pub kind: String,
    pub description: String,
}

/// A tool the server offers: name, description, parameters, and the
/// parameters that must be given.
pub struct ToolSpec {
    pub name: String,
    pub description: String,
    pub params: Vec<ToolParam>,
    pub required: Vec<String>,
}

/// The texts of a `ToolSpec`.
pub struct ToolSpecView {
    pub name: Seq<char>,
    pub description: Seq<char>,
    pub params: Seq<(Seq<char>, Seq<char>, Seq<char>)>,
    pub required: Seq<Seq<char>>,
}

impl View for ToolSpec {
    type V = ToolSpecView;

    open spec fn view(&self) -> ToolSpecView {
        ToolSpecView {
            name: self.name@,
            description: self.description@,
            params: self.params@.map_values(
                |p: ToolParam| (p.name@, p.kind@, p.description@),
            ),
            required: string_views(self.required@),
        }
    }
}

/// The tools the server offers, in the order it lists them.
pub open spec fn tool_catalog_spec() -> Seq<ToolSpecView> {
    seq![
        ToolSpecView {
            name: "create_agent_inbox"@,
            description: "Create a new virtual email inbox for the AI agent (e.g. for signups, verification flows, API keys)."@,
            params: seq![
                ("name"@, "string"@, "Descriptive name for the agent (e.g. github-signup-bot)"@),
                ("address"@, "string"@, "Optional custom address (e.g. agent@apocalypto.in)"@),
            ],
            required: Seq::empty(),
        },
        ToolSpecView {
            name: "get_latest_otp"@,
            description: "Get the most recent 4-8 digit OTP verification code sent to an agent's inbox."@,
            params: seq![
                ("account_id"@, "string"@, "The account ID of the inbox or email address"@),
            ],
            required: seq!["account_id"@],
        },
        ToolSpecView {
            name: "wait_for_email"@,
            description: "Asynchronously wait for a new incoming email or OTP code to arrive. Blocks until received or timeout."@,
            params: seq![
                ("account_id"@, "string"@, "The account ID or email address to watch"@),
                ("timeout_secs"@, "integer"@, "Maximum seconds to wait (default: 30, max: 120)"@),
            ],
            required: Seq::empty(),
        },
        ToolSpecView {
            name: "get_verification_link"@,
            description: "Get the latest verification, confirmation, or magic login URLs received in the agent's inbox."@,
            params: seq![
                ("account_id"@, "string"@, "The account ID of the inbox or email address"@),
            ],
            required: seq!["account_id"@],
        },
        ToolSpecView {
            name: "read_agent_inbox"@,
            description: "Read all received email messages, parsed text, subject lines, and sender info for an agent inbox."@,
            params: seq![
                ("account_id"@, "string"@, "The account ID of the inbox or email address"@),
            ],
            required: seq!["account_id"@],
        },
        ToolSpecView {
            name: "send_agent_email"@,
            description: "Send an outbound email from the agent's inbox address."@,
            params: seq![
                ("account_id"@, "string"@, "The account ID or email address to send from"@),
                ("to"@, "string"@, "Recipient email address"@),
                ("subject"@, "string"@, "Email subject"@),
                ("body"@, "string"@, "Plain text body"@),
            ],
            required: seq!["account_id"@, "to"@, "subject"@, "body"@],
        },
        ToolSpecView {
            name: "delete_agent_inbox"@,
            description: "Delete a virtual agent inbox and all its associated messages."@,
            params: seq![
                ("account_id"@, "string"@, "The account ID or email address of the inbox to delete"@),
            ],
            required: seq!["account_id"@],
        },
        ToolSpecView {
            name: "dispatch_agent_task"@,
            description: "Dispatch a work order to another agent; the task is recorded with an audit trail."@,
            params: seq![
                ("action"@, "string"@, "What is to be done (e.g. fix_bug)"@),
                ("repository"@, "string"@, "Repository the work is in (e.g. owner/name)"@),
                ("branch"@, "string"@, "Branch to work on (default: main)"@),
                ("priority"@, "string"@, "low, normal, high or urgent (default: normal)"@),
                ("description"@, "string"@, "What the task is about"@),
                ("evidence"@, "array"@, "Evidence such as failing tests or log lines"@),
                ("acceptance_criteria"@, "array"@, "Conditions the finished work must meet"@),
                ("target_agent_id"@, "string"@, "The agent the task is meant for"@),
                ("agent_token"@, "string"@, "Token of the calling agent"@),
            ],
            required: seq!["action"@],
        },
        ToolSpecView {
            name: "list_agent_tasks"@,
            description: "List the work orders visible to the calling agent, newest first."@,
            params: seq![
                ("status"@, "string"@, "Only tasks with this status"@),
                ("limit"@, "integer"@, "Maximum number of tasks (default: 50)"@),
                ("agent_token"@, "string"@, "Token of the calling agent"@),
            ],
            required: Seq::empty(),
        },
        ToolSpecView {
            name: "claim_agent_task"@,
            description: "Claim a received work order; the calling agent is assigned to it."@,
            params: seq![
                ("task_id"@, "string"@, "The task to claim"@),
                ("agent_token"@, "string"@, "Token of the calling agent"@),
            ],
            required: seq!["task_id"@],
        },
        ToolSpecView {
            name: "update_task_progress"@,
            description: "Report progress on a task: its new status, commit, pull request and test results."@,
            params: seq![
                ("task_id"@, "string"@, "The task worked on"@),
                ("status"@, "string"@, "New status (running, testing, pr_opened, failed)"@),
                ("commit_sha"@, "string"@, "Commit that holds the work"@),
                ("pr_url"@, "string"@, "Pull request opened for the work"@),
                ("test_results"@, "string"@, "Summary of the test run"@),
                ("note"@, "string"@, "Free-form note kept in the audit trail"@),
                ("agent_token"@, "string"@, "Token of the calling agent"@),
            ],
            required: seq!["task_id"@, "status"@],
        },
        ToolSpecView {
            name: "complete_agent_task"@,
            description: "Mark a task completed, with a summary of the work done."@,
            params: seq![
                ("task_id"@, "string"@, "The task completed"@),
                ("summary"@, "string"@, "What was done"@),
                ("commit_sha"@, "string"@, "Commit that holds the work"@),
                ("pr_url"@, "string"@, "Pull request opened for the work"@),
                ("test_results"@, "string"@, "Summary of the test run"@),
                ("agent_token"@, "string"@, "Token of the calling agent"@),
            ],
            required: seq!["task_id"@],
        },
        ToolSpecView {
            name: "get_task_audit_trail"@,
            description: "Read the audit trail of a task: its lifecycle events in the order they happened."@,
            params: seq![
                ("task_id"@, "string"@, "The task"@),
                ("agent_token"@, "string"@, "Token of the calling agent"@),
            ],
            required: seq!["task_id"@],
        },
    ]
}

fn param(name: &str, kind: &str, description: &str) -> (r: ToolParam)
    ensures
        r.name@ == name@,
        r.kind@ == kind@,
        r.description@ == description@,
{
    ToolParam { name: owned(name), kind: owned(kind), description: owned(description) }
}

fn account_param(description: &str) -> (r: Vec<ToolParam>)
    ensures
        r@.map_values(|p: ToolParam| (p.name@, p.kind@, p.description@)) == seq![
            ("account_id"@, "string"@, description@),
        ],
{
    let mut v: Vec<ToolParam> = Vec::new();
    v.push(param("account_id", "string", description));
    assert(v@.map_values(|p: ToolParam| (p.name@, p.kind@, p.description@)) =~= seq![
        ("account_id"@, "string"@, description@),
    ]);
    v
}

fn names(items: &[&str]) -> (r: Vec<String>)
    ensures
        r@.len() == items@.len(),
        forall|i: int| 0 <= i < items@.len() ==> #[trigger] r@[i]@ == items@[i]@,
{
    let mut r: Vec<String> = Vec::new();
    let mut i: usize = 0;
    while i < items.len()
        invariant
            i <= items@.len(),
            r@.len() == i,
            forall|j: int| 0 <= j < i ==> #[trigger] r@[j]@ == items@[j]@,
        decreases items@.len() - i,
    {
        r.push(owned(items[i]));
        i = i + 1;
    }
    r
}

fn tool(name: &str, description: &str, params: Vec<ToolParam>, required: Vec<String>) -> (r:
    ToolSpec)
    ensures
        r.name@ == name@,
        r.description@ == description@,
        r.params == params,
        r.required == required,
{
    ToolSpec { name: owned(name), description: owned(description), params, required }
}

/// The tools the server offers.
pub fn tool_catalog() -> (r: Vec<ToolSpec>)
    ensures
        r@.map_values(|t: ToolSpec| t@) == tool_catalog_spec(),
{
    let mut r: Vec<ToolSpec> = Vec::new();
    let mut create_params: Vec<ToolParam> = Vec::new();
    create_params.push(
        param("name", "string", "Descriptive name for the agent (e.g. github-signup-bot)"),
    );
    create_params.push(
        param("address", "string", "Optional custom address (e.g. agent@apocalypto.in)"),
    );
    r.push(
        tool(
            "create_agent_inbox",
            "Create a new virtual email inbox for the AI agent (e.g. for signups, verification flows, API keys).",
            create_params,
            Vec::new(),
        ),
    );
    let one = ["account_id"];
    r.push(
        tool(
            "get_latest_otp",
            "Get the most recent 4-8 digit OTP verification code sent to an agent's inbox.",
            account_param("The account ID of the inbox or email address"),
            names(&one),
        ),
    );
    let mut wait_params: Vec<ToolParam> = Vec::new();
    wait_params.push(param("account_id", "string", "The account ID or email address to watch"));
    wait_params.push(
        param("timeout_secs", "integer", "Maximum seconds to wait (default: 30, max: 120)"),
    );
    r.push(
        tool(
            "wait_for_email",
            "Asynchronously wait for a new incoming email or OTP code to arrive. Blocks until received or timeout.",
            wait_params,
            Vec::new(),
        ),
    );
    r.push(
        tool(
            "get_verification_link",
            "Get the latest verification, confirmation, or magic login URLs received in the agent's inbox.",
            account_param("The account ID of the inbox or email address"),
            names(&one),
        ),
    );
    r.push(
        tool(
            "read_agent_inbox",
            "Read all received email messages, parsed text, subject lines, and sender info for an agent inbox.",
            account_param("The account ID of the inbox or email address"),
            names(&one),
        ),
    );
    let mut send_params: Vec<ToolParam> = Vec::new();
    send_params.push(param("account_id", "string", "The account ID or email address to send from"));
    send_params.push(param("to", "string", "Recipient email address"));
    send_params.push(param("subject", "string", "Email subject"));
    send_params.push(param("body", "string", "Plain text body"));
    let four = ["account_id", "to", "subject", "body"];
    r.push(
        tool(
            "send_agent_email",
            "Send an outbound email from the agent's inbox address.",
            send_params,
            names(&four),
        ),
    );
    r.push(
        tool(
            "delete_agent_inbox",
            "Delete a virtual agent inbox and all its associated messages.",
            account_param("The account ID or email address of the inbox to delete"),
            names(&one),
        ),
    );
    let token = "Token of the calling agent";
    let mut dispatch_params: Vec<ToolParam> = Vec::new();
    dispatch_params.push(param("action", "string", "What is to be done (e.g. fix_bug)"));
    dispatch_params.push(param("repository", "string", "Repository the work is in (e.g. owner/name)"));
    dispatch_params.push(param("branch", "string", "Branch to work on (default: main)"));
    dispatch_params.push(param("priority", "string", "low, normal, high or urgent (default: normal)"));
    dispatch_params.push(param("description", "string", "What the task is about"));
    dispatch_params.push(param("evidence", "array", "Evidence such as failing tests or log lines"));
    dispatch_params.push(param("acceptance_criteria", "array", "Conditions the finished work must meet"));
    dispatch_params.push(param("target_agent_id", "string", "The agent the task is meant for"));
    dispatch_params.push(param("agent_token", "string", token));
    let action = ["action"];
    r.push(
        tool(
            "dispatch_agent_task",
            "Dispatch a work order to another agent; the task is recorded with an audit trail.",
            dispatch_params,
            names(&action),
        ),
    );
    let mut list_params: Vec<ToolParam> = Vec::new();
    list_params.push(param("status", "string", "Only tasks with this status"));
    list_params.push(param("limit", "integer", "Maximum number of tasks (default: 50)"));
    list_params.push(param("agent_token", "string", token));
    r.push(
        tool(
            "list_agent_tasks",
            "List the work orders visible to the calling agent, newest first.",
            list_params,
            Vec::new(),
        ),
    );
    let task = ["task_id"];
    let mut claim_params: Vec<ToolParam> = Vec::new();
    claim_params.push(param("task_id", "string", "The task to claim"));
    claim_params.push(param("agent_token", "string", token));
    r.push(
        tool(
            "claim_agent_task",
            "Claim a received work order; the calling agent is assigned to it.",
            claim_params,
            names(&task),
        ),
    );
    let mut update_params: Vec<ToolParam> = Vec::new();
    update_params.push(param("task_id", "string", "The task worked on"));
    update_params.push(param("status", "string", "New status (running, testing, pr_opened, failed)"));
    update_params.push(param("commit_sha", "string", "Commit that holds the work"));
    update_params.push(param("pr_url", "string", "Pull request opened for the work"));
    update_params.push(param("test_results", "string", "Summary of the test run"));
    update_params.push(param("note", "string", "Free-form note kept in the audit trail"));
    update_params.push(param("agent_token", "string", token));
    let task_status = ["task_id", "status"];
    r.push(
        tool(
            "update_task_progress",
            "Report progress on a task: its new status, commit, pull request and test results.",
            update_params,
            names(&task_status),
        ),
    );
    let mut complete_params: Vec<ToolParam> = Vec::new();
    complete_params.push(param("task_id", "string", "The task completed"));
    complete_params.push(param("summary", "string", "What was done"));
    complete_params.push(param("commit_sha", "string", "Commit that holds the work"));
    complete_params.push(param("pr_url", "string", "Pull request opened for the work"));
    complete_params.push(param("test_results", "string", "Summary of the test run"));
    complete_params.push(param("agent_token", "string", token));
    r.push(
        tool(
            "complete_agent_task",
            "Mark a task completed, with a summary of the work done.",
            complete_params,
            names(&task),
        ),
    );
    let mut audit_params: Vec<ToolParam> = Vec::new();
    audit_params.push(param("task_id", "string", "The task"));
    audit_params.push(param("agent_token", "string", token));
    r.push(
        tool(
            "get_task_audit_trail",
            "Read the audit trail of a task: its lifecycle events in the order they happened.",
            audit_params,
            names(&task),
        ),
    );
    proof {
        let f = |p: ToolParam| (p.name@, p.kind@, p.description@);
        assert(r@[0].params@.map_values(f) =~= tool_catalog_spec()[0].params);
        assert(r@[2].params@.map_values(f) =~= tool_catalog_spec()[2].params);
        assert(r@[5].params@.map_values(f) =~= tool_catalog_spec()[5].params);
        assert(string_views(r@[0].required@) =~= tool_catalog_spec()[0].required);
        assert(string_views(r@[1].required@) =~= tool_catalog_spec()[1].required);
        assert(string_views(r@[2].required@) =~= tool_catalog_spec()[2].required);
        assert(string_views(r@[3].required@) =~= tool_catalog_spec()[3].required);
        assert(string_views(r@[4].required@) =~= tool_catalog_spec()[4].required);
        assert(string_views(r@[5].required@) =~= tool_catalog_spec()[5].required);
        assert(string_views(r@[6].required@) =~= tool_catalog_spec()[6].required);
        assert(r@[7].params@.map_values(f) =~= tool_catalog_spec()[7].params);
        assert(r@[8].params@.map_values(f) =~= tool_catalog_spec()[8].params);
        assert(r@[9].params@.map_values(f) =~= tool_catalog_spec()[9].params);
        assert(r@[10].params@.map_values(f) =~= tool_catalog_spec()[10].params);
        assert(r@[11].params@.map_values(f) =~= tool_catalog_spec()[11].params);
        assert(r@[12].params@.map_values(f) =~= tool_catalog_spec()[12].params);
        assert(string_views(r@[7].required@) =~= tool_catalog_spec()[7].required);
        assert(string_views(r@[8].required@) =~= tool_catalog_spec()[8].required);
        assert(string_views(r@[9].required@) =~= tool_catalog_spec()[9].required);
        assert(string_views(r@[10].required@) =~= tool_catalog_spec()[10].required);
        assert(string_views(r@[11].required@) =~= tool_catalog_spec()[11].required);
        assert(string_views(r@[12].required@) =~= tool_catalog_spec()[12].required);
    }
    assert(r@.map_values(|t: ToolSpec| t@) =~= tool_catalog_spec());
    r
}

/// The reply to a JSON-RPC request.
pub enum McpReply {
    /// The answer to `initialize`: protocol version and server identity.
    ServerInfo { protocol_version: String, server_name: String, server_version: String },
    /// The answer to `tools/list`.
    Tools(Vec<ToolSpec>),
    /// The answer to a tool call: the result as (pretty JSON) text.
    ToolText(String),
    /// A JSON-RPC error.
    Error { code: i64, message: String },
}

/// The reply to a method, where it needs no tool to run: the server info
/// for `initialize`, the catalog for `tools/list`, error -32601 for an
/// unknown method; `None` for `tools/call`.
pub fn method_reply(method: McpMethod) -> (r: Option<McpReply>)
    ensures
        match method {
            McpMethod::Initialize => r matches Some(
                McpReply::ServerInfo { protocol_version, server_name, server_version },
            ) && protocol_version@ == "2024-11-05"@ && server_name@ == "agentbox-mail-mcp"@
                && server_version@ == "0.2.0"@,
            McpMethod::ToolsList => r matches Some(McpReply::Tools(tools)) && tools@.map_values(
                |t: ToolSpec| t@,
            ) == tool_catalog_spec(),
            McpMethod::ToolsCall => r is None,
            McpMethod::Unknown => r matches Some(McpReply::Error { code, message }) && code
                == -32601 && message@ == "Method not found"@,
        },
{
    match method {
        McpMethod::Initialize => Some(
            McpReply::ServerInfo {
                protocol_version: owned("2024-11-05"),
                server_name: owned("agentbox-mail-mcp"),
                server_version: owned("0.2.0"),
            },
        ),
        McpMethod::ToolsList => Some(McpReply::Tools(tool_catalog())),
        McpMethod::ToolsCall => None,
        McpMethod::Unknown => Some(
            McpReply::Error { code: -32601, message: owned("Method not found") },
        ),
    }
}

/// The reply to a tool call: its result text, or error -32000 with the
/// failure's message.
pub fn tool_call_reply(outcome: Result<String, String>) -> (r: McpReply)
    ensures
        match outcome {
            Ok(text) => r matches McpReply::ToolText(t) && t == text,
            Err(m) => r matches McpReply::Error { code, message } && code == -32000 && message
                == m,
        },
{
    match outcome {
        Ok(text) => McpReply::ToolText(text),
        Err(m) => McpReply::Error { code: -32000, message: m },
    }
}

/// A JSON-RPC response: the protocol version, the request's identifier
/// echoed, and the reply.
pub struct RpcResponse<Id> {
    pub jsonrpc: String,
    pub id: Id,
    pub reply: McpReply,
}

/// The response to the request with identifier `id`: version `2.0`, the
/// same identifier, and `reply`.
pub fn respond<Id>(id: Id, reply: McpReply) -> (r: RpcResponse<Id>)
    ensures
        r.jsonrpc@ == "2.0"@,
        r.id == id,
        r.reply == reply,
{
    RpcResponse { jsonrpc: owned("2.0"), id, reply }
}

/// Whether a line read from standard input is blank (and skipped).
pub fn is_blank_line(line: &str) -> (r: bool)
    ensures
        r == (trim_ws(line@).len() == 0),
{
    let v = chars_of(line);
    trim_chars(&v).len() == 0
}

// ---------------------------------------------------------------------------
// Tool calls
// ---------------------------------------------------------------------------

/// The arguments of a tool call that the tools read: the strings (each
/// `None` where missing or not a string), `timeout_secs` and `limit` where
/// they are unsigned integers, and `evidence` and `acceptance_criteria`
/// where they are lists of strings.
pub struct ToolArgs {
    pub name: Option<String>,
    pub address: Option<String>,
    pub account_id: Option<String>,
    pub timeout_secs: Option<u64>,
    pub to: Option<String>,
    pub subject: Option<String>,
    pub body: Option<String>,
    pub agent_token: Option<String>,
    pub task_id: Option<String>,
    pub action: Option<String>,
    pub repository: Option<String>,
    pub branch: Option<String>,
    pub priority: Option<String>,
    pub description: Option<String>,
    pub evidence: Option<Vec<String>>,
    pub acceptance_criteria: Option<Vec<String>>,
    pub target_agent_id: Option<String>,
    pub status: Option<String>,
    pub commit_sha: Option<String>,
    pub pr_url: Option<String>,
    pub test_results: Option<String>,
    pub note: Option<String>,
    pub summary: Option<String>,
    pub limit: Option<u64>,
}

/// What a tool call is to do.
pub enum ToolPlan {
    /// Create an inbox with this address and display name.
    CreateInbox { address: String, display_name: String },
    /// Give the latest OTP code of the inbox named by `identifier`.
    LatestOtp { identifier: String },
    /// Wait up to `timeout_secs` for mail to the inbox named by
    /// `identifier`.
    WaitForEmail { identifier: String, timeout_secs: u64 },
    /// Give the links received by the inbox named by `identifier`.
    VerificationLinks { identifier: String },
    /// Give the messages of the inbox named by `identifier`.
    ReadInbox { identifier: String },
    /// Send mail from the inbox named by `identifier`; the recipient is
    /// checked once the inbox is resolved.
    SendEmail { identifier: String, to: Option<String>, subject: String, body: String },
    /// Delete the inbox named by `identifier`.
    DeleteInbox { identifier: String },
    /// Dispatch a new work order from the calling agent.
    DispatchTask {
        action: String,
        repository: Option<String>,
        branch: Option<String>,
        priority: TaskPriority,
        description: String,
        evidence: Option<Vec<String>>,
        acceptance_criteria: Option<Vec<String>>,
        target_agent_id: Option<String>,
    },
    /// List at most `limit` tasks visible to the calling agent, only those
    /// with `status` where one is given.
    ListTasks { status: Option<String>, limit: u64 },
    /// Claim a task for the calling agent.
    ClaimTask { task_id: String },
    /// Record progress on a task: its new status and what was produced.
    UpdateTask {
        task_id: String,
        status: String,
        commit_sha: Option<String>,
        pr_url: Option<String>,
        test_results: Option<String>,
        note: Option<String>,
    },
    /// Mark a task completed.
    CompleteTask {
        task_id: String,
        summary: String,
        commit_sha: Option<String>,
        pr_url: Option<String>,
        test_results: Option<String>,
    },
    /// Give the audit trail of a task.
    AuditTrail { task_id: String },
}

/// The priority asked of a dispatched task: the one named (letter case
/// ignored), else normal.
pub open spec fn asked_priority(p: Option<Seq<char>>) -> TaskPriority {
    match p {
        Some(t) => priority_from_lower(unicode_lowercase(t)),
        None => TaskPriority::Normal,
    }
}

/// The timeout of a wait: the one asked (else 30 seconds), at most 120.
pub open spec fn wait_timeout_spec(asked: Option<u64>) -> u64 {
    let t = match asked {
        Some(t) => t,
        None => 30u64,
    };
    if t < 120 {
        t
    } else {
        120
    }
}

/// The plan of a call of tool `name` (none: the empty name) with `args`,
/// where a new inbox gets the random `slug`:
/// - `create_agent_inbox`: the given address, else one made from the name
///   (else `agent-worker`), the slug and `domain`;
/// - `get_latest_otp`, `get_verification_link`, `read_agent_inbox`,
///   `send_agent_email`, `delete_agent_inbox`: refused with `Missing
///   account_id` without an account; mail is sent with the subject (else
///   `(No Subject)`) and body (else empty);
/// - `wait_for_email`: the account (else `agent`) and the timeout;
/// - `dispatch_agent_task`: refused with `Missing action` without an
///   action; the priority named (else normal), the description (else
///   empty), the rest as given;
/// - `list_agent_tasks`: the status asked, and the limit (else 50);
/// - `claim_agent_task`, `complete_agent_task`, `get_task_audit_trail`:
///   refused with `Missing task_id` without a task; a completion has the
///   summary (else empty);
/// - `update_task_progress`: refused with `Missing task_id` without a
///   task, else with `Missing status` without a status;
/// - any other name: refused with `Unknown tool: <name>`.
pub open spec fn tool_plan_matches(
    name: Option<Seq<char>>,
    args: ToolArgs,
    slug: Seq<char>,
    domain: Seq<char>,
    r: Result<ToolPlan, String>,
) -> bool {
    let n = match name {
        Some(x) => x,
        None => Seq::empty(),
    };
    let account = opt_view(args.account_id);
    let missing = r matches Err(m) && m@ == "Missing account_id"@;
    if n == "create_agent_inbox"@ {
        let display = or_default(opt_view(args.name), "agent-worker"@);
        r matches Ok(ToolPlan::CreateInbox { address, display_name }) && display_name@ == display
            && address@ == or_default(opt_view(args.address), inbox_address(display, slug, domain))
    } else if n == "get_latest_otp"@ {
        match account {
            Some(a) => r matches Ok(ToolPlan::LatestOtp { identifier }) && identifier@ == a,
            None => missing,
        }
    } else if n == "wait_for_email"@ {
        r matches Ok(ToolPlan::WaitForEmail { identifier, timeout_secs }) && identifier@
            == or_default(account, "agent"@) && timeout_secs == wait_timeout_spec(args.timeout_secs)
    } else if n == "get_verification_link"@ {
        match account {
            Some(a) => r matches Ok(ToolPlan::VerificationLinks { identifier }) && identifier@ == a,
            None => missing,
        }
    } else if n == "read_agent_inbox"@ {
        match account {
            Some(a) => r matches Ok(ToolPlan::ReadInbox { identifier }) && identifier@ == a,
            None => missing,
        }
    } else if n == "send_agent_email"@ {
        match account {
            Some(a) => r matches Ok(ToolPlan::SendEmail { identifier, to, subject, body })
                && identifier@ == a && opt_view(to) == opt_view(args.to) && subject@ == or_default(
                opt_view(args.subject),
                "(No Subject)"@,
            ) && body@ == or_default(opt_view(args.body), Seq::empty()),
            None => missing,
        }
    } else if n == "delete_agent_inbox"@ {
        match account {
            Some(a) => r matches Ok(ToolPlan::DeleteInbox { identifier }) && identifier@ == a,
            None => missing,
        }
    } else {
        task_plan_matches(n, args, r)
    }
}

/// The plan of a call of the task tool `n` (see `tool_plan_matches`).
pub open spec fn task_plan_matches(n: Seq<char>, args: ToolArgs, r: Result<ToolPlan, String>) -> bool {
    let task = opt_view(args.task_id);
    let missing_task = r matches Err(m) && m@ == "Missing task_id"@;
    if n == "dispatch_agent_task"@ {
        match opt_view(args.action) {
            Some(a) => r matches Ok(
                ToolPlan::DispatchTask {
                    action,
                    repository,
                    branch,
                    priority,
                    description,
                    evidence,
                    acceptance_criteria,
                    target_agent_id,
                },
            ) && action@ == a && opt_view(repository) == opt_view(args.repository) && opt_view(
                branch,
            ) == opt_view(args.branch) && priority == asked_priority(opt_view(args.priority))
                && description@ == or_default(opt_view(args.description), Seq::empty()) && evidence
                == args.evidence && acceptance_criteria == args.acceptance_criteria && opt_view(
                target_agent_id,
            ) == opt_view(args.target_agent_id),
            None => r matches Err(m) && m@ == "Missing action"@,
        }
    } else if n == "list_agent_tasks"@ {
        r matches Ok(ToolPlan::ListTasks { status, limit }) && opt_view(status) == opt_view(
            args.status,
        ) && limit == (match args.limit {
            Some(l) => l,
            None => 50u64,
        })
    } else if n == "claim_agent_task"@ {
        match task {
            Some(t) => r matches Ok(ToolPlan::ClaimTask { task_id }) && task_id@ == t,
            None => missing_task,
        }
    } else if n == "update_task_progress"@ {
        match task {
            Some(t) => match opt_view(args.status) {
                Some(st) => r matches Ok(
                    ToolPlan::UpdateTask { task_id, status, commit_sha, pr_url, test_results, note },
                ) && task_id@ == t && status@ == st && opt_view(commit_sha) == opt_view(
                    args.commit_sha,
                ) && opt_view(pr_url) == opt_view(args.pr_url) && opt_view(test_results)
                    == opt_view(args.test_results) && opt_view(note) == opt_view(args.note),
                None => r matches Err(m) && m@ == "Missing status"@,
            },
            None => missing_task,
        }
    } else if n == "complete_agent_task"@ {
        match task {
            Some(t) => r matches Ok(
                ToolPlan::CompleteTask { task_id, summary, commit_sha, pr_url, test_results },
            ) && task_id@ == t && summary@ == or_default(opt_view(args.summary), Seq::empty())
                && opt_view(commit_sha) == opt_view(args.commit_sha) && opt_view(pr_url) == opt_view(
                args.pr_url,
            ) && opt_view(test_results) == opt_view(args.test_results),
            None => missing_task,
        }
    } else if n == "get_task_audit_trail"@ {
        match task {
            Some(t) => r matches Ok(ToolPlan::AuditTrail { task_id }) && task_id@ == t,
            None => missing_task,
        }
    } else {
        r matches Err(m) && m@ == "Unknown tool: "@ + n
    }
}

fn text_or(o: Option<String>, d: &str) -> (r: String)
    ensures
        r@ == or_default(opt_view(o), d@),
{
    match o {
        Some(x) => x,
        None => owned(d),
    }
}

/// The timeout of a wait.
pub fn wait_timeout(asked: Option<u64>) -> (r: u64)
    ensures
        r == wait_timeout_spec(asked),
        r <= 120,
{
    let t = match asked {
        Some(t) => t,
        None => 30,
    };
    if t < 120 {
        t
    } else {
        120
    }
}

fn missing_account<T>() -> (r: Result<T, String>)
    ensures
        r matches Err(m) && m@ == "Missing account_id"@,
{
    Err(owned("Missing account_id"))
}

/// The tool names tell apart by length and first character.
proof fn lemma_tool_names()
    ensures
        "create_agent_inbox"@.len() == 18 && "create_agent_inbox"@[0] == 'c',
        "get_latest_otp"@.len() == 14 && "get_latest_otp"@[0] == 'g',
        "wait_for_email"@.len() == 14 && "wait_for_email"@[0] == 'w',
        "get_verification_link"@.len() == 21,
        "read_agent_inbox"@.len() == 16 && "read_agent_inbox"@[0] == 'r',
        "send_agent_email"@.len() == 16 && "send_agent_email"@[0] == 's',
        "delete_agent_inbox"@.len() == 18 && "delete_agent_inbox"@[0] == 'd',
        "dispatch_agent_task"@.len() == 19 && "dispatch_agent_task"@[0] == 'd',
        "list_agent_tasks"@.len() == 16 && "list_agent_tasks"@[0] == 'l',
        "claim_agent_task"@.len() == 16 && "claim_agent_task"@[0] == 'c',
        "update_task_progress"@.len() == 20 && "update_task_progress"@[0] == 'u',
        "complete_agent_task"@.len() == 19 && "complete_agent_task"@[0] == 'c',
        "get_task_audit_trail"@.len() == 20 && "get_task_audit_trail"@[0] == 'g',
{
    reveal_strlit("create_agent_inbox");
    reveal_strlit("get_latest_otp");
    reveal_strlit("wait_for_email");
    reveal_strlit("get_verification_link");
    reveal_strlit("read_agent_inbox");
    reveal_strlit("send_agent_email");
    reveal_strlit("delete_agent_inbox");
    reveal_strlit("dispatch_agent_task");
    reveal_strlit("list_agent_tasks");
    reveal_strlit("claim_agent_task");
    reveal_strlit("update_task_progress");
    reveal_strlit("complete_agent_task");
    reveal_strlit("get_task_audit_trail");
}

/// The plan of a tool call, a new inbox getting the random `slug`.
pub fn plan_tool_with_slug(name: Option<String>, args: ToolArgs, slug: &str, domain: &str) -> (r:
    Result<ToolPlan, String>)
    ensures
        tool_plan_matches(opt_view(name), args, slug@, domain@, r),
{
    proof {
        lemma_tool_names();
    }
    let n = match name {
        Some(x) => x,
        None => String::new(),
    };
    let nm = n.as_str();
    if str_eq(nm, "create_agent_inbox") {
        let display_name = text_or(args.name, "agent-worker");
        let address = match args.address {
            Some(a) => a,
            None => default_inbox_address(display_name.as_str(), slug, domain),
        };
        Ok(ToolPlan::CreateInbox { address, display_name })
    } else if str_eq(nm, "wait_for_email") {
        let identifier = text_or(args.account_id, "agent");
        Ok(ToolPlan::WaitForEmail { identifier, timeout_secs: wait_timeout(args.timeout_secs) })
    } else if str_eq(nm, "get_latest_otp") || str_eq(nm, "get_verification_link") || str_eq(
        nm,
        "read_agent_inbox",
    ) || str_eq(nm, "send_agent_email") || str_eq(nm, "delete_agent_inbox") {
        match args.account_id {
            None => missing_account(),
            Some(identifier) => {
                if str_eq(nm, "get_latest_otp") {
                    Ok(ToolPlan::LatestOtp { identifier })
                } else if str_eq(nm, "get_verification_link") {
                    Ok(ToolPlan::VerificationLinks { identifier })
                } else if str_eq(nm, "read_agent_inbox") {
                    Ok(ToolPlan::ReadInbox { identifier })
                } else if str_eq(nm, "send_agent_email") {
                    let subject = text_or(args.subject, "(No Subject)");
                    let body = match args.body {
                        Some(b) => b,
                        None => String::new(),
                    };
                    Ok(ToolPlan::SendEmail { identifier, to: args.to, subject, body })
                } else {
                    Ok(ToolPlan::DeleteInbox { identifier })
                }
            },
        }
    } else {
        plan_task_tool(nm, args)
    }
}

fn text_or_empty(o: Option<String>) -> (r: String)
    ensures
        r@ == or_default(opt_view(o), Seq::empty()),
{
    match o {
        Some(x) => x,
        None => String::new(),
    }
}

fn missing_task<T>() -> (r: Result<T, String>)
    ensures
        r matches Err(m) && m@ == "Missing task_id"@,
{
    Err(owned("Missing task_id"))
}

/// The plan of a call of a task tool, or of an unknown tool.
fn plan_task_tool(nm: &str, args: ToolArgs) -> (r: Result<ToolPlan, String>)
    ensures
        task_plan_matches(nm@, args, r),
{
    proof {
        lemma_tool_names();
    }
    if str_eq(nm, "dispatch_agent_task") {
        match args.action {
            None => Err(owned("Missing action")),
            Some(action) => {
                let priority = match &args.priority {
                    Some(p) => TaskPriority::from_str(p.as_str()),
                    None => TaskPriority::Normal,
                };
                Ok(
                    ToolPlan::DispatchTask {
                        action,
                        repository: args.repository,
                        branch: args.branch,
                        priority,
                        description: text_or_empty(args.description),
                        evidence: args.evidence,
                        acceptance_criteria: args.acceptance_criteria,
                        target_agent_id: args.target_agent_id,
                    },
                )
            },
        }
    } else if str_eq(nm, "list_agent_tasks") {
        let limit = match args.limit {
            Some(l) => l,
            None => 50,
        };
        Ok(ToolPlan::ListTasks { status: args.status, limit })
    } else if str_eq(nm, "claim_agent_task") {
        match args.task_id {
            Some(task_id) => Ok(ToolPlan::ClaimTask { task_id }),
            None => missing_task(),
        }
    } else if str_eq(nm, "update_task_progress") {
        match args.task_id {
            Some(task_id) => match args.status {
                Some(status) => Ok(
                    ToolPlan::UpdateTask {
                        task_id,
                        status,
                        commit_sha: args.commit_sha,
                        pr_url: args.pr_url,
                        test_results: args.test_results,
                        note: args.note,
                    },
                ),
                None => Err(owned("Missing status")),
            },
            None => missing_task(),
        }
    } else if str_eq(nm, "complete_agent_task") {
        match args.task_id {
            Some(task_id) => Ok(
                ToolPlan::CompleteTask {
                    task_id,
                    summary: text_or_empty(args.summary),
                    commit_sha: args.commit_sha,
                    pr_url: args.pr_url,
                    test_results: args.test_results,
                },
            ),
            None => missing_task(),
        }
    } else if str_eq(nm, "get_task_audit_trail") {
        match args.task_id {
            Some(task_id) => Ok(ToolPlan::AuditTrail { task_id }),
            None => missing_task(),
        }
    } else {
        Err(concat2("Unknown tool: ", nm))
    }
}

/// The plan of a tool call; a new inbox without a given address gets a
/// fresh random slug of six lowercase hex digits.
pub fn plan_tool(name: Option<String>, args: ToolArgs, domain: &str) -> (r: Result<
    ToolPlan,
    String,
>)
    ensures
        exists|slug: Seq<char>|
            slug.len() == 6 && (forall|i: int| 0 <= i < 6 ==> is_lower_hex(#[trigger] slug[i]))
                && tool_plan_matches(opt_view(name), args, slug, domain@, r),
{
    let slug = fresh_slug(6);
    plan_tool_with_slug(name, args, slug.as_str(), domain)
}

// ---------------------------------------------------------------------------
// Who may call a tool
// ---------------------------------------------------------------------------

/// Whether a plan is one of the task tools, which act for an agent and so
/// need its token.
pub open spec fn is_task_plan(p: ToolPlan) -> bool {
    ||| p is DispatchTask
    ||| p is ListTasks
    ||| p is ClaimTask
    ||| p is UpdateTask
    ||| p is CompleteTask
    ||| p is AuditTrail
}

/// The capability scope a plan needs.
pub open spec fn plan_scope(p: ToolPlan) -> Seq<char> {
    match p {
        ToolPlan::CreateInbox { .. } => "inbox.create"@,
        ToolPlan::LatestOtp { .. } => "otp.read"@,
        ToolPlan::WaitForEmail { .. } => "inbox.read"@,
        ToolPlan::VerificationLinks { .. } => "links.read"@,
        ToolPlan::ReadInbox { .. } => "inbox.read"@,
        ToolPlan::SendEmail { .. } => "email.send"@,
        ToolPlan::DeleteInbox { .. } => "inbox.delete"@,
        ToolPlan::DispatchTask { .. } => "task.dispatch"@,
        ToolPlan::ListTasks { .. } => "task.read"@,
        ToolPlan::ClaimTask { .. } => "task.claim"@,
        ToolPlan::UpdateTask { .. } => "task.update"@,
        ToolPlan::CompleteTask { .. } => "task.update"@,
        ToolPlan::AuditTrail { .. } => "task.read"@,
    }
}

/// The capability scope a plan needs.
pub fn required_scope(plan: &ToolPlan) -> (r: &'static str)
    ensures
        r@ == plan_scope(*plan),
{
    match plan {
        ToolPlan::CreateInbox { .. } => "inbox.create",
        ToolPlan::LatestOtp { .. } => "otp.read",
        ToolPlan::WaitForEmail { .. } => "inbox.read",
        ToolPlan::VerificationLinks { .. } => "links.read",
        ToolPlan::ReadInbox { .. } => "inbox.read",
        ToolPlan::SendEmail { .. } => "email.send",
        ToolPlan::DeleteInbox { .. } => "inbox.delete",
        ToolPlan::DispatchTask { .. } => "task.dispatch",
        ToolPlan::ListTasks { .. } => "task.read",
        ToolPlan::ClaimTask { .. } => "task.claim",
        ToolPlan::UpdateTask { .. } => "task.update",
        ToolPlan::CompleteTask { .. } => "task.update",
        ToolPlan::AuditTrail { .. } => "task.read",
    }
}

/// The scopes granted to an agent, read from its stored JSON list (none
/// when unreadable).
pub open spec fn granted_scopes(agent: AgentIdentity) -> Seq<Seq<char>> {
    match strings_of_json(agent.capabilities@) {
        Some(c) => c,
        None => Seq::empty(),
    }
}

/// The refusal of a revoked or otherwise inactive identity.
pub open spec fn inactive_message(agent: AgentIdentity) -> Seq<char> {
    "Unauthorized: agent identity '"@ + agent.id@ + "' is "@ + agent.status@
}

/// The refusal of a call whose scope the agent was not granted.
pub open spec fn permission_message(agent: AgentIdentity, scope: Seq<char>) -> Seq<char> {
    "PermissionDenied: agent '"@ + agent.id@ + "' lacks capability '"@ + scope + "'"@
}

/// Who makes a call of `plan`, given whether an agent token came with it
/// and the identity that token belongs to:
/// - without a token, nobody in particular for the mail tools, and the
///   refusal `Unauthorized: agent_token required` for the task tools;
/// - with a token that belongs to no identity, `Unauthorized: invalid
///   agent_token`;
/// - an identity whose status is not `active` (a revoked one) is refused
///   with a message that names its status;
/// - an identity not granted the plan's scope is refused with
///   `PermissionDenied: ...`;
/// - else the identity.
pub fn authorize(plan: &ToolPlan, token_given: bool, identity: Option<AgentIdentity>) -> (r: Result<
    Option<AgentIdentity>,
    String,
>)
    ensures
        !token_given && !is_task_plan(*plan) ==> r matches Ok(None),
        !token_given && is_task_plan(*plan) ==> (r matches Err(m) && m@
            == "Unauthorized: agent_token required"@),
        token_given ==> match identity {
            None => r matches Err(m) && m@ == "Unauthorized: invalid agent_token"@,
            Some(a) => if a.status@ != "active"@ {
                r matches Err(m) && m@ == inactive_message(a)
            } else if !allows_scope(granted_scopes(a), plan_scope(*plan)) {
                r matches Err(m) && m@ == permission_message(a, plan_scope(*plan))
            } else {
                r == Ok::<Option<AgentIdentity>, String>(Some(a))
            },
        },
{
    if !token_given {
        let task_tool = match plan {
            ToolPlan::DispatchTask { .. } | ToolPlan::ListTasks { .. } | ToolPlan::ClaimTask { .. }
            | ToolPlan::UpdateTask { .. } | ToolPlan::CompleteTask { .. }
            | ToolPlan::AuditTrail { .. } => true,
            _ => false,
        };
        if task_tool {
            return Err(owned("Unauthorized: agent_token required"));
        }
        return Ok(None);
    }
    match identity {
        None => Err(owned("Unauthorized: invalid agent_token")),
        Some(a) => {
            if !str_eq(a.status.as_str(), "active") {
                let head = concat3("Unauthorized: agent identity '", a.id.as_str(), "' is ");
                return Err(concat2(head.as_str(), a.status.as_str()));
            }
            let scope = required_scope(plan);
            let caps = match json_to_strings(a.capabilities.as_str()) {
                Some(c) => c,
                None => Vec::new(),
            };
            assert(scope_texts(caps@) =~= granted_scopes(a));
            if !scope_allowed(caps.as_slice(), scope) {
                let head = concat3("PermissionDenied: agent '", a.id.as_str(), "' lacks capability '");
                let body = concat2(head.as_str(), scope);
                return Err(concat2(body.as_str(), "'"));
            }
            Ok(Some(a))
        },
    }
}

/// The refusal of an agent acting on an inbox it does not own.
pub open spec fn access_message(agent: AgentIdentity, account_id: Seq<char>) -> Seq<char> {
    "AccessDenied: agent '"@ + agent.id@ + "' may not access account '"@ + account_id + "'"@
}

/// Whether the caller may act on the inbox `account_id` (`account`: the
/// stored inbox, if any): anyone, when no agent is calling; else only an
/// agent that owns it, others being refused with `AccessDenied: ...`.
pub fn ownership_check(agent: &Option<AgentIdentity>, account: Option<&Account>, account_id: &str) -> (r:
    Result<(), String>)
    ensures
        match agent {
            None => r is Ok,
            Some(a) => if owns(
                *a,
                match account {
                    Some(x) => Some(*x),
                    None => None,
                },
            ) {
                r is Ok
            } else {
                r matches Err(m) && m@ == access_message(*a, account_id@)
            },
        },
{
    match agent {
        None => Ok(()),
        Some(a) => {
            if verify_resource_ownership(a, account) {
                Ok(())
            } else {
                let head = concat3("AccessDenied: agent '", a.id.as_str(), "' may not access account '");
                let body = concat2(head.as_str(), account_id);
                Err(concat2(body.as_str(), "'"))
            }
        },
    }
}

/// The owner of an inbox created by a call: the calling agent, if any.
pub fn inbox_owner(agent: &Option<AgentIdentity>) -> (r: Option<String>)
    ensures
        opt_view(r) == match agent {
            Some(a) => Some(a.id@),
            None => None,
        },
{
    match agent {
        Some(a) => Some(copy(&a.id)),
        None => None,
    }
}

// ---------------------------------------------------------------------------
// Inboxes named by identifier or address
// ---------------------------------------------------------------------------

/// How a tool names an inbox: an identifier with `@` in it is an address
/// (found, or created as an "AI Agent Inbox"); anything else is an account
/// identifier taken as it is.
pub enum AccountRef {
    Id(String),
    Address(String),
}

/// How `identifier` names an inbox.
pub fn account_ref(identifier: &str) -> (r: AccountRef)
    ensures
        identifier@.contains('@') ==> (r matches AccountRef::Address(a) && a@ == identifier@),
        !identifier@.contains('@') ==> (r matches AccountRef::Id(i) && i@ == identifier@),
{
    if str_contains_char(identifier, '@') {
        AccountRef::Address(owned(identifier))
    } else {
        AccountRef::Id(owned(identifier))
    }
}

/// The display name of an inbox created because a tool named its address.
pub fn tool_inbox_display_name() -> (r: String)
    ensures
        r@ == "AI Agent Inbox"@,
{
    owned("AI Agent Inbox")
}

// ---------------------------------------------------------------------------
// Sending mail
// ---------------------------------------------------------------------------

/// The recipient of `send_agent_email`, or the error when none is given.
pub fn required_recipient(to: Option<String>) -> (r: Result<String, String>)
    ensures
        match to {
            Some(t) => r == Ok::<String, String>(t),
            None => r matches Err(m) && m@ == "Missing recipient 'to'"@,
        },
{
    match to {
        Some(t) => Ok(t),
        None => Err(owned("Missing recipient 'to'")),
    }
}

/// The request `send_agent_email` sends from inbox `account` (the error
/// `Account not found` when there is none): from its address to `to`, as
/// plain text.
pub fn agent_mail(to: String, subject: String, body: String, account: Option<Account>) -> (r:
    Result<SendEmailRequest, String>)
    ensures
        match account {
            Some(acc) => r matches Ok(req) && req.from == Some(acc.address) && string_views(
                req.to@,
            ) == seq![to@] && req.cc is None && req.bcc is None && req.subject == subject
                && req.text == Some(body) && req.html is None && req.in_reply_to is None,
            None => r matches Err(m) && m@ == "Account not found"@,
        },
{
    match account {
        Some(acc) => {
            let mut recipients: Vec<String> = Vec::new();
            recipients.push(to);
            assert(string_views(recipients@) =~= seq![to@]);
            Ok(
                SendEmailRequest {
                    from: Some(acc.address),
                    to: recipients,
                    cc: None,
                    bcc: None,
                    subject,
                    text: Some(body),
                    html: None,
                    in_reply_to: None,
                },
            )
        },
        None => Err(owned("Account not found")),
    }
}

// ---------------------------------------------------------------------------
// Waiting for mail
// ---------------------------------------------------------------------------

/// How many times a wait of `timeout_secs` looks for mail: twice a second.
pub fn wait_polls(timeout_secs: u64) -> (r: u64)
    requires
        timeout_secs <= 120,
    ensures
        r == 2 * timeout_secs,
{
    timeout_secs * 2
}

/// Whether a message counts as new for a wait that began at `start`: it
/// arrived at most five seconds before.
pub open spec fn is_recent(m: Message, start: i64) -> bool {
    m.created_at >= start - 5
}

/// The position of the first new message of a wait that began at `start`.
pub fn first_recent_message(messages: &Vec<Message>, start: i64) -> (r: Option<usize>)
    requires
        start >= i64::MIN + 5,
    ensures
        match r {
            Some(i) => i < messages@.len() && is_recent(messages@[i as int], start) && forall|
                j: int,
            | 0 <= j < i ==> !is_recent(#[trigger] messages@[j], start),
            None => forall|j: int|
                0 <= j < messages@.len() ==> !is_recent(#[trigger] messages@[j], start),
        },
{
    let cutoff = start - 5;
    let mut i: usize = 0;
    while i < messages.len()
        invariant
            i <= messages@.len(),
            cutoff == start - 5,
            forall|j: int| 0 <= j < i ==> !is_recent(#[trigger] messages@[j], start),
        decreases messages@.len() - i,
    {
        if messages[i].created_at >= cutoff {
            return Some(i);
        }
        i = i + 1;
    }
    None
}

/// What a wait for mail reports.
pub enum WaitReport {
    /// A new message arrived.
    Received {
        otp: Option<String>,
        subject: Option<String>,
        from: String,
        body_text: Option<String>,
        links: Vec<String>,
        created_at: i64,
    },
    /// None arrived in time.
    TimedOut { message: String },
}

/// The report of a wait of `timeout_secs`: the new message's code,
/// subject, sender, text, the URLs of its action links and its time, or
/// `Timed out after <n>s waiting for email`.
pub fn wait_report(found: Option<&Message>, timeout_secs: u64) -> (r: WaitReport)
    ensures
        match found {
            Some(m) => r matches WaitReport::Received { otp, subject, from, body_text, links, created_at }
                && opt_view(otp) == opt_view(m.extracted_otp) && opt_view(subject) == opt_view(
                m.subject,
            ) && from@ == m.from_address@ && opt_view(body_text) == opt_view(m.body_text)
                && string_views(links@) == stored_links(*m) && created_at == m.created_at,
            None => r matches WaitReport::TimedOut { message } && message@ == "Timed out after "@
                + decimal_text(timeout_secs as nat) + "s waiting for email"@,
        },
{
    match found {
        Some(m) => WaitReport::Received {
            otp: copy_opt(&m.extracted_otp),
            subject: copy_opt(&m.subject),
            from: copy(&m.from_address),
            body_text: copy_opt(&m.body_text),
            links: message_link_urls(m),
            created_at: m.created_at,
        },
        None => {
            let n = decimal_string(timeout_secs);
            WaitReport::TimedOut {
                message: concat3("Timed out after ", n.as_str(), "s waiting for email"),
            }
        },
    }
}

// ---------------------------------------------------------------------------
// Laws
// ---------------------------------------------------------------------------

/// Whether `name` is one of the tools the server lists.
pub open spec fn listed_tool(name: Seq<char>) -> bool {
    exists|i: int| 0 <= i < tool_catalog_spec().len() && #[trigger] tool_catalog_spec()[i].name == name
}

/// Whether a call's arguments hold the argument named `key` (one of those
/// that tools list as required).
pub open spec fn arg_given(args: ToolArgs, key: Seq<char>) -> bool {
    if key == "account_id"@ {
        args.account_id is Some
    } else if key == "to"@ {
        args.to is Some
    } else if key == "subject"@ {
        args.subject is Some
    } else if key == "body"@ {
        args.body is Some
    } else if key == "action"@ {
        args.action is Some
    } else if key == "task_id"@ {
        args.task_id is Some
    } else if key == "status"@ {
        args.status is Some
    } else {
        false
    }
}

/// What the law below says of the listed tool `t`: a call giving every
/// argument `t` requires is planned, and a refused call is refused as
/// `Missing <arg>` for a required argument it lacks.
pub open spec fn runs_when_complete(t: ToolSpecView, args: ToolArgs, r: Result<ToolPlan, String>) -> bool {
    &&& (forall|k: int| 0 <= k < t.required.len() ==> arg_given(args, #[trigger] t.required[k]))
        ==> r is Ok
    &&& r is Err ==> exists|k: int|
        0 <= k < t.required.len() && !arg_given(args, #[trigger] t.required[k]) && (r matches Err(
            m,
        ) && m@ == "Missing "@ + t.required[k])
}

proof fn lemma_arg_keys()
    ensures
        arg_given_keys_distinct(),
{
    reveal_strlit("account_id");
    reveal_strlit("to");
    reveal_strlit("subject");
    reveal_strlit("body");
    reveal_strlit("action");
    reveal_strlit("task_id");
    reveal_strlit("status");
    assert("task_id"@[0] != "subject"@[0]);
    assert("status"@[0] != "action"@[0]);
}

/// The required argument names differ from one another.
spec fn arg_given_keys_distinct() -> bool {
    &&& "account_id"@.len() == 10
    &&& "to"@.len() == 2
    &&& "subject"@.len() == 7 && "subject"@[0] == 's'
    &&& "body"@.len() == 4
    &&& "action"@.len() == 6 && "action"@[0] == 'a'
    &&& "task_id"@.len() == 7 && "task_id"@[0] == 't'
    &&& "status"@.len() == 6 && "status"@[0] == 's'
}

proof fn lemma_missing_texts()
    ensures
        "Missing "@ + "account_id"@ == "Missing account_id"@,
        "Missing "@ + "action"@ == "Missing action"@,
        "Missing "@ + "task_id"@ == "Missing task_id"@,
        "Missing "@ + "status"@ == "Missing status"@,
{
    reveal_strlit("Missing ");
    reveal_strlit("account_id");
    reveal_strlit("action");
    reveal_strlit("task_id");
    reveal_strlit("status");
    reveal_strlit("Missing account_id");
    reveal_strlit("Missing action");
    reveal_strlit("Missing task_id");
    reveal_strlit("Missing status");
    assert("Missing "@ + "account_id"@ =~= "Missing account_id"@);
    assert("Missing "@ + "action"@ =~= "Missing action"@);
    assert("Missing "@ + "task_id"@ =~= "Missing task_id"@);
    assert("Missing "@ + "status"@ =~= "Missing status"@);
}

proof fn lemma_one_required(t: ToolSpecView, args: ToolArgs, r: Result<ToolPlan, String>, key: Seq<char>)
    requires
        t.required == seq![key],
        arg_given(args, key) ==> r is Ok,
        !arg_given(args, key) ==> (r matches Err(m) && m@ == "Missing "@ + key),
    ensures
        runs_when_complete(t, args, r),
{
    assert(t.required[0] == key);
}

/// The tools listed are the tools run: a call of a listed tool that gives
/// every argument the tool lists as required is planned, and a call of a
/// listed tool is refused only as `Missing <arg>` for a required argument
/// it lacks. A call of a tool not listed is refused as `Unknown tool:
/// <name>`.
pub proof fn law_listed_tools_are_run(
    name: Seq<char>,
    args: ToolArgs,
    slug: Seq<char>,
    domain: Seq<char>,
    r: Result<ToolPlan, String>,
)
    requires
        tool_plan_matches(Some(name), args, slug, domain, r),
    ensures
        forall|i: int|
            0 <= i < tool_catalog_spec().len() && #[trigger] tool_catalog_spec()[i].name == name
                ==> runs_when_complete(tool_catalog_spec()[i], args, r),
        !listed_tool(name) ==> (r matches Err(m) && m@ == "Unknown tool: "@ + name),
{
    lemma_tool_names();
    lemma_missing_texts();
    lemma_arg_keys();
    let c = tool_catalog_spec();
    assert(c[0].name == "create_agent_inbox"@);
    assert(c[1].name == "get_latest_otp"@);
    assert(c[2].name == "wait_for_email"@);
    assert(c[3].name == "get_verification_link"@);
    assert(c[4].name == "read_agent_inbox"@);
    assert(c[5].name == "send_agent_email"@);
    assert(c[6].name == "delete_agent_inbox"@);
    assert(c[7].name == "dispatch_agent_task"@);
    assert(c[8].name == "list_agent_tasks"@);
    assert(c[9].name == "claim_agent_task"@);
    assert(c[10].name == "update_task_progress"@);
    assert(c[11].name == "complete_agent_task"@);
    assert(c[12].name == "get_task_audit_trail"@);
    assert forall|i: int|
        0 <= i < c.len() && #[trigger] c[i].name == name implies runs_when_complete(c[i], args, r) by {
        if i == 0 || i == 2 || i == 8 {
            assert(c[i].required.len() == 0);
            assert(r is Ok);
        } else if i == 1 || i == 3 || i == 4 || i == 6 {
            assert(c[i].required =~= seq!["account_id"@]);
            lemma_one_required(c[i], args, r, "account_id"@);
        } else if i == 7 {
            assert(c[i].required =~= seq!["action"@]);
            lemma_one_required(c[i], args, r, "action"@);
        } else if i == 9 || i == 11 || i == 12 {
            assert(c[i].required =~= seq!["task_id"@]);
            lemma_one_required(c[i], args, r, "task_id"@);
        } else if i == 5 {
            let t = c[i];
            assert(t.required[0] == "account_id"@);
            if !arg_given(args, t.required[0]) {
                assert(r matches Err(m) && m@ == "Missing "@ + t.required[0]);
            } else {
                assert(r is Ok);
            }
        } else {
            let t = c[i];
            assert(i == 10);
            assert(t.required[0] == "task_id"@ && t.required[1] == "status"@);
            if !arg_given(args, t.required[0]) {
                assert(r matches Err(m) && m@ == "Missing "@ + t.required[0]);
            } else if !arg_given(args, t.required[1]) {
                assert(r matches Err(m) && m@ == "Missing "@ + t.required[1]);
            } else {
                assert(r is Ok);
            }
        }
    }
    if !listed_tool(name) {
        assert(name != c[0].name && name != c[1].name && name != c[2].name && name != c[3].name
            && name != c[4].name && name != c[5].name && name != c[6].name && name != c[7].name
            && name != c[8].name && name != c[9].name && name != c[10].name && name != c[11].name
            && name != c[12].name);
    }
}


/// Which capability each tool asks of an agent: creating, reading and
/// deleting inboxes need `inbox.create`, `inbox.read` and `inbox.delete`;
/// codes `otp.read`; links `links.read`; sending `email.send`; dispatching a
/// task `task.dispatch`; claiming one `task.claim`; reporting progress and
/// completing `task.update`; listing tasks and reading a trail `task.read`.
pub proof fn law_tool_scopes(p: ToolPlan)
    ensures
        p is CreateInbox ==> plan_scope(p) == "inbox.create"@,
        p is LatestOtp ==> plan_scope(p) == "otp.read"@,
        p is WaitForEmail ==> plan_scope(p) == "inbox.read"@,
        p is VerificationLinks ==> plan_scope(p) == "links.read"@,
        p is ReadInbox ==> plan_scope(p) == "inbox.read"@,
        p is SendEmail ==> plan_scope(p) == "email.send"@,
        p is DeleteInbox ==> plan_scope(p) == "inbox.delete"@,
        p is DispatchTask ==> plan_scope(p) == "task.dispatch"@,
        p is ListTasks ==> plan_scope(p) == "task.read"@,
        p is ClaimTask ==> plan_scope(p) == "task.claim"@,
        p is UpdateTask ==> plan_scope(p) == "task.update"@,
        p is CompleteTask ==> plan_scope(p) == "task.update"@,
        p is AuditTrail ==> plan_scope(p) == "task.read"@,
{
}

/// A scope name is its own key: no white space at its edges and no
/// `agentbox.` prefix.
proof fn lemma_scope_is_own_key(s: Seq<char>)
    requires
        s == "inbox.create"@ || s == "inbox.read"@ || s == "inbox.delete"@ || s == "otp.read"@ || s
            == "links.read"@ || s == "email.send"@ || s == "task.dispatch"@ || s == "task.claim"@
            || s == "task.update"@ || s == "task.read"@,
    ensures
        crate::engine::capabilities::capability_key(s) == s,
{
    reveal_strlit("agentbox.");
    reveal_strlit("inbox.create");
    reveal_strlit("inbox.read");
    reveal_strlit("inbox.delete");
    reveal_strlit("otp.read");
    reveal_strlit("links.read");
    reveal_strlit("email.send");
    reveal_strlit("task.dispatch");
    reveal_strlit("task.claim");
    reveal_strlit("task.update");
    reveal_strlit("task.read");
    assert(!crate::text::is_white_space(s[0]) && !crate::text::is_white_space(s.last()));
    crate::text::lemma_trim_no_edge_ws(s);
    assert(!"agentbox."@.is_prefix_of(s)) by {
        if "agentbox."@.is_prefix_of(s) {
            assert(s[0] == "agentbox."@[0]);
            assert(s[1] == "agentbox."@[1]);
        }
    }
    crate::text::lemma_strip_all_prefix_absent(s, "agentbox."@);
}

/// An active agent granted the scope that a tool asks for may call it: a
/// worker holding `task.claim` may claim any task, one holding `email.send`
/// may send, and so on for every tool.
pub proof fn law_granted_scope_authorizes(p: ToolPlan, a: AgentIdentity, i: int)
    requires
        0 <= i < granted_scopes(a).len(),
        p is ClaimTask ==> granted_scopes(a)[i] == "task.claim"@,
        p is DispatchTask ==> granted_scopes(a)[i] == "task.dispatch"@,
        p is UpdateTask || p is CompleteTask ==> granted_scopes(a)[i] == "task.update"@,
        p is ListTasks || p is AuditTrail ==> granted_scopes(a)[i] == "task.read"@,
        p is CreateInbox ==> granted_scopes(a)[i] == "inbox.create"@,
        p is LatestOtp ==> granted_scopes(a)[i] == "otp.read"@,
        p is WaitForEmail || p is ReadInbox ==> granted_scopes(a)[i] == "inbox.read"@,
        p is VerificationLinks ==> granted_scopes(a)[i] == "links.read"@,
        p is SendEmail ==> granted_scopes(a)[i] == "email.send"@,
        p is DeleteInbox ==> granted_scopes(a)[i] == "inbox.delete"@,
    ensures
        allows_scope(granted_scopes(a), plan_scope(p)),
{
    law_tool_scopes(p);
    let s = granted_scopes(a)[i];
    lemma_scope_is_own_key(s);
    assert(crate::engine::capabilities::capability_key(granted_scopes(a)[i]) == plan_scope(p));
}


/// A wait lasts the time asked, 30 seconds when none is asked, and never
/// more than 120 seconds.
pub proof fn law_wait_timeout(asked: Option<u64>)
    ensures
        wait_timeout_spec(asked) <= 120,
        asked is None ==> wait_timeout_spec(asked) == 30,
        forall|t: u64| asked == Some(t) && t <= 120 ==> wait_timeout_spec(asked) == t,
        forall|t: u64| asked == Some(t) && t > 120 ==> wait_timeout_spec(asked) == 120,
{
}

} // verus!
