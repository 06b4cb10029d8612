//! Agent work orders: their status and priority vocabulary, and the records
//! of a task and of its audit trail.
use vstd::prelude::*;
use crate::bindings::{
    is_lower_hex, is_uuid_text, json_of_strings, new_uuid_text, now_timestamp, strings_to_json,
};
use crate::ids::{id_slug, lemma_uuid_compact, prefixed_id};
use crate::text::{
    ascii_lower_seq, copy, copy_opt, is_ascii_seq, opt_str_view, opt_view, owned, remove_char_spec,
    str_eq, string_views, to_lowercase, unicode_lowercase,
};

verus! {

/// Where a task stands.
#[derive(Clone, Copy, Debug, PartialEq, Eq, Structural)]
pub enum TaskStatus {
    Received,
    Claimed,
    Running,
    Testing,
    PrOpened,
    Completed,
    Failed,
}

/// How urgent a task is.
#[derive(Clone, Copy, Debug, PartialEq, Eq, Structural)]
pub enum TaskPriority {
    Low,
    Normal,
    High,
    Urgent,
}

/// The text of a status (`received`, ..., `pr_opened`, ...).
pub open spec fn status_name(s: TaskStatus) -> Seq<char> {
    match s {
        TaskStatus::Received => "received"@,
        TaskStatus::Claimed => "claimed"@,
        TaskStatus::Running => "running"@,
        TaskStatus::Testing => "testing"@,
        TaskStatus::PrOpened => "pr_opened"@,
        TaskStatus::Completed => "completed"@,
        TaskStatus::Failed => "failed"@,
    }
}

/// The status that a lowercased text names (`propened` is accepted too).
pub open spec fn status_from_lower(t: Seq<char>) -> Option<TaskStatus> {
    if t == "received"@ {
        Some(TaskStatus::Received)
    } else if t == "claimed"@ {
        Some(TaskStatus::Claimed)
    } else if t == "running"@ {
        Some(TaskStatus::Running)
    } else if t == "testing"@ {
        Some(TaskStatus::Testing)
    } else if t == "pr_opened"@ || t == "propened"@ {
        Some(TaskStatus::PrOpened)
    } else if t == "completed"@ {
        Some(TaskStatus::Completed)
    } else if t == "failed"@ {
        Some(TaskStatus::Failed)
    } else {
        None
    }
}

/// The text of a priority.
pub open spec fn priority_name(p: TaskPriority) -> Seq<char> {
    match p {
        TaskPriority::Low => "low"@,
        TaskPriority::Normal => "normal"@,
        TaskPriority::High => "high"@,
        TaskPriority::Urgent => "urgent"@,
    }
}

/// The priority that a lowercased text names; `critical` means urgent and
/// anything unknown means normal.
pub open spec fn priority_from_lower(t: Seq<char>) -> TaskPriority {
    if t == "low"@ {
        TaskPriority::Low
    } else if t == "high"@ {
        TaskPriority::High
    } else if t == "urgent"@ || t == "critical"@ {
        TaskPriority::Urgent
    } else {
        TaskPriority::Normal
    }
}

impl TaskStatus {
    /// The text of the status.
    pub fn to_string(&self) -> (r: String)
        ensures
            r@ == status_name(*self),
    {
        match self {
            TaskStatus::Received => owned("received"),
            TaskStatus::Claimed => owned("claimed"),
            TaskStatus::Running => owned("running"),
            TaskStatus::Testing => owned("testing"),
            TaskStatus::PrOpened => owned("pr_opened"),
            TaskStatus::Completed => owned("completed"),
            TaskStatus::Failed => owned("failed"),
        }
    }

    /// Reads a status, ignoring letter case.
    pub fn from_str(s: &str) -> (r: Option<TaskStatus>)
        ensures
            r == status_from_lower(unicode_lowercase(s@)),
            is_ascii_seq(s@) ==> r == status_from_lower(ascii_lower_seq(s@)),
    {
        let lower = to_lowercase(s);
        let t = lower.as_str();
        if str_eq(t, "received") {
            Some(TaskStatus::Received)
        } else if str_eq(t, "claimed") {
            Some(TaskStatus::Claimed)
        } else if str_eq(t, "running") {
            Some(TaskStatus::Running)
        } else if str_eq(t, "testing") {
            Some(TaskStatus::Testing)
        } else if str_eq(t, "pr_opened") || str_eq(t, "propened") {
            Some(TaskStatus::PrOpened)
        } else if str_eq(t, "completed") {
            Some(TaskStatus::Completed)
        } else if str_eq(t, "failed") {
            Some(TaskStatus::Failed)
        } else {
            None
        }
    }

    /// Whether the task is over: completed or failed.
    pub fn is_terminal(&self) -> (r: bool)
        ensures
            r == (*self == TaskStatus::Completed || *self == TaskStatus::Failed),
    {
        match self {
            TaskStatus::Completed | TaskStatus::Failed => true,
            _ => false,
        }
    }
}

impl TaskPriority {
    /// The text of the priority.
    pub fn to_string(&self) -> (r: String)
        ensures
            r@ == priority_name(*self),
    {
        match self {
            TaskPriority::Low => owned("low"),
            TaskPriority::Normal => owned("normal"),
            TaskPriority::High => owned("high"),
            TaskPriority::Urgent => owned("urgent"),
        }
    }

    /// Reads a priority, ignoring letter case; unknown texts mean normal.
    pub fn from_str(s: &str) -> (r: TaskPriority)
        ensures
            r == priority_from_lower(unicode_lowercase(s@)),
            is_ascii_seq(s@) ==> r == priority_from_lower(ascii_lower_seq(s@)),
    {
        let lower = to_lowercase(s);
        let t = lower.as_str();
        if str_eq(t, "low") {
            TaskPriority::Low
        } else if str_eq(t, "high") {
            TaskPriority::High
        } else if str_eq(t, "urgent") || str_eq(t, "critical") {
            TaskPriority::Urgent
        } else {
            TaskPriority::Normal
        }
    }
}

/// A work order exchanged between agents.
pub struct AgentTask {
    pub id: String,
    pub source_agent_id: String,
    pub target_agent_id: Option<String>,
    pub action: String,
    pub repository: Option<String>,
    pub branch: String,
    pub priority: String,
    pub status: String,
    pub description: String,
    pub evidence_json: Option<String>,
    pub acceptance_criteria_json: Option<String>,
    pub assigned_agent_id: Option<String>,
    pub commit_sha: Option<String>,
    pub pr_url: Option<String>,
    pub test_results_json: Option<String>,
    pub created_at: i64,
    pub updated_at: i64,
    pub completed_at: Option<i64>,
}

/// One entry of a task's audit trail.
pub struct TaskAuditLog {
    pub id: String,
    pub task_id: String,
    pub agent_id: String,
    pub event_type: String,
    pub details_json: Option<String>,
    pub created_at: i64,
}

/// The JSON text of an optional list of strings.
pub open spec fn json_list_text(v: Option<Vec<String>>) -> Option<Seq<char>> {
    match v {
        Some(items) => json_of_strings(string_views(items@)),
        None => None,
    }
}

/// An owned copy of an optional string slice.
fn owned_opt(o: Option<&str>) -> (r: Option<String>)
    ensures
        opt_view(r) == opt_str_view(o),
{
    match o {
        Some(s) => Some(owned(s)),
        None => None,
    }
}

/// The JSON text of an optional list of strings.
fn json_list(v: &Option<Vec<String>>) -> (r: Option<String>)
    ensures
        opt_view(r) == json_list_text(*v),
{
    match v {
        Some(items) => strings_to_json(items),
        None => None,
    }
}

/// The fields that every new task has, whatever its identifier and time.
pub open spec fn new_task_fields(
    t: AgentTask,
    source_agent_id: Seq<char>,
    target_agent_id: Option<Seq<char>>,
    action: Seq<char>,
    repository: Option<Seq<char>>,
    branch: Option<Seq<char>>,
    priority: TaskPriority,
    description: Seq<char>,
    evidence: Option<Vec<String>>,
    acceptance_criteria: Option<Vec<String>>,
) -> bool {
    &&& t.source_agent_id@ == source_agent_id
    &&& opt_view(t.target_agent_id) == target_agent_id
    &&& t.action@ == action
    &&& opt_view(t.repository) == repository
    &&& t.branch@ == (match branch {
        Some(b) => b,
        None => "main"@,
    })
    &&& t.priority@ == priority_name(priority)
    &&& t.status@ == status_name(TaskStatus::Received)
    &&& t.description@ == description
    &&& opt_view(t.evidence_json) == json_list_text(evidence)
    &&& opt_view(t.acceptance_criteria_json) == json_list_text(acceptance_criteria)
    &&& t.assigned_agent_id is None
    &&& t.commit_sha is None
    &&& t.pr_url is None
    &&& t.test_results_json is None
    &&& t.created_at == t.updated_at
    &&& t.completed_at is None
}

impl AgentTask {
    /// A new task, received and unassigned, with identifier
    /// `task_` + the first 8 hex digits of `uuid` and both timestamps `now`.
    pub fn assemble(
        source_agent_id: &str,
        target_agent_id: Option<&str>,
        action: &str,
        repository: Option<&str>,
        branch: Option<&str>,
        priority: TaskPriority,
        description: &str,
        evidence: Option<Vec<String>>,
        acceptance_criteria: Option<Vec<String>>,
        uuid: &str,
        now: i64,
    ) -> (r: AgentTask)
        requires
            8 <= remove_char_spec(uuid@, '-').len(),
        ensures
            new_task_fields(
                r,
                source_agent_id@,
                opt_str_view(target_agent_id),
                action@,
                opt_str_view(repository),
                opt_str_view(branch),
                priority,
                description@,
                evidence,
                acceptance_criteria,
            ),
            r.id@ == "task_"@ + id_slug(uuid@, 8),
            r.created_at == now,
    {
        let branch = match branch {
            Some(b) => owned(b),
            None => owned("main"),
        };
        AgentTask {
            id: prefixed_id("task_", uuid, 8),
            source_agent_id: owned(source_agent_id),
            target_agent_id: owned_opt(target_agent_id),
            action: owned(action),
            repository: owned_opt(repository),
            branch,
            priority: priority.to_string(),
            status: TaskStatus::Received.to_string(),
            description: owned(description),
            evidence_json: json_list(&evidence),
            acceptance_criteria_json: json_list(&acceptance_criteria),
            assigned_agent_id: None,
            commit_sha: None,
            pr_url: None,
            test_results_json: None,
            created_at: now,
            updated_at: now,
            completed_at: None,
        }
    }

    /// A new task, received and unassigned, with a fresh identifier
    /// `task_` + 8 random hex digits, created now.
    pub fn new(
        source_agent_id: &str,
        target_agent_id: Option<&str>,
        action: &str,
        repository: Option<&str>,
        branch: Option<&str>,
        priority: TaskPriority,
        description: &str,
        evidence: Option<Vec<String>>,
        acceptance_criteria: Option<Vec<String>>,
    ) -> (r: AgentTask)
        ensures
            new_task_fields(
                r,
                source_agent_id@,
                opt_str_view(target_agent_id),
                action@,
                opt_str_view(repository),
                opt_str_view(branch),
                priority,
                description@,
                evidence,
                acceptance_criteria,
            ),
            r.id@.len() == 13,
            "task_"@.is_prefix_of(r.id@),
            forall|i: int| 5 <= i < 13 ==> is_lower_hex(#[trigger] r.id@[i]),
    {
        let uuid = new_uuid_text();
        proof {
            lemma_uuid_compact(uuid@);
            reveal_strlit("task_");
        }
        let now = now_timestamp();
        let r = Self::assemble(
            source_agent_id,
            target_agent_id,
            action,
            repository,
            branch,
            priority,
            description,
            evidence,
            acceptance_criteria,
            uuid.as_str(),
            now,
        );
        assert(r.id@.subrange(0, 5) =~= "task_"@);
        r
    }
}

impl TaskAuditLog {
    /// An audit entry with identifier `audit_` + the first 10 hex digits of
    /// `uuid`, created at `now`; `details_json` is the JSON text of the
    /// event's details.
    pub fn assemble(
        task_id: &str,
        agent_id: &str,
        event_type: &str,
        details_json: Option<String>,
        uuid: &str,
        now: i64,
    ) -> (r: TaskAuditLog)
        requires
            10 <= remove_char_spec(uuid@, '-').len(),
        ensures
            r.id@ == "audit_"@ + id_slug(uuid@, 10),
            r.task_id@ == task_id@,
            r.agent_id@ == agent_id@,
            r.event_type@ == event_type@,
            r.details_json == details_json,
            r.created_at == now,
    {
        TaskAuditLog {
            id: prefixed_id("audit_", uuid, 10),
            task_id: owned(task_id),
            agent_id: owned(agent_id),
            event_type: owned(event_type),
            details_json,
            created_at: now,
        }
    }

    /// An audit entry with a fresh identifier `audit_` + 10 random hex
    /// digits, created now.
    pub fn new(task_id: &str, agent_id: &str, event_type: &str, details_json: Option<String>) -> (r:
        TaskAuditLog)
        ensures
            r.id@.len() == 16,
            "audit_"@.is_prefix_of(r.id@),
            forall|i: int| 6 <= i < 16 ==> is_lower_hex(#[trigger] r.id@[i]),
            r.task_id@ == task_id@,
            r.agent_id@ == agent_id@,
            r.event_type@ == event_type@,
            r.details_json == details_json,
    {
        let uuid = new_uuid_text();
        proof {
            lemma_uuid_compact(uuid@);
            reveal_strlit("audit_");
        }
        let now = now_timestamp();
        let r = Self::assemble(task_id, agent_id, event_type, details_json, uuid.as_str(), now);
        assert(r.id@.subrange(0, 6) =~= "audit_"@);
        r
    }
}

// ---------------------------------------------------------------------------
// Lifecycle
// ---------------------------------------------------------------------------

/// Whether a task in status `status` may be claimed: it was received, or it
/// is claimed already (the claim passes to the new agent).
pub open spec fn claimable(status: Seq<char>) -> bool {
    status == "received"@ || status == "claimed"@
}

/// The new value of a result field: the one reported, else the old one.
pub open spec fn reported(new: Option<Seq<char>>, old: Option<Seq<char>>) -> Option<Seq<char>> {
    match new {
        Some(x) => Some(x),
        None => old,
    }
}

/// Whether `t` is the work order `old` describes: only its status,
/// assignee, results and times may differ.
pub open spec fn same_order(t: AgentTask, old: AgentTask) -> bool {
    &&& t.id@ == old.id@
    &&& t.source_agent_id@ == old.source_agent_id@
    &&& opt_view(t.target_agent_id) == opt_view(old.target_agent_id)
    &&& t.action@ == old.action@
    &&& opt_view(t.repository) == opt_view(old.repository)
    &&& t.branch@ == old.branch@
    &&& t.priority@ == old.priority@
    &&& t.description@ == old.description@
    &&& opt_view(t.evidence_json) == opt_view(old.evidence_json)
    &&& opt_view(t.acceptance_criteria_json) == opt_view(old.acceptance_criteria_json)
    &&& t.created_at == old.created_at
}

fn report(new: Option<&str>, old: &Option<String>) -> (r: Option<String>)
    ensures
        opt_view(r) == reported(opt_str_view(new), opt_view(*old)),
{
    match new {
        Some(s) => Some(owned(s)),
        None => copy_opt(old),
    }
}

impl AgentTask {
    /// This work order with the given lifecycle fields.
    fn with_lifecycle(
        &self,
        status: String,
        assigned_agent_id: Option<String>,
        commit_sha: Option<String>,
        pr_url: Option<String>,
        test_results_json: Option<String>,
        updated_at: i64,
        completed_at: Option<i64>,
    ) -> (r: AgentTask)
        ensures
            same_order(r, *self),
            r.status == status,
            r.assigned_agent_id == assigned_agent_id,
            r.commit_sha == commit_sha,
            r.pr_url == pr_url,
            r.test_results_json == test_results_json,
            r.updated_at == updated_at,
            r.completed_at == completed_at,
    {
        AgentTask {
            id: copy(&self.id),
            source_agent_id: copy(&self.source_agent_id),
            target_agent_id: copy_opt(&self.target_agent_id),
            action: copy(&self.action),
            repository: copy_opt(&self.repository),
            branch: copy(&self.branch),
            priority: copy(&self.priority),
            status,
            description: copy(&self.description),
            evidence_json: copy_opt(&self.evidence_json),
            acceptance_criteria_json: copy_opt(&self.acceptance_criteria_json),
            assigned_agent_id,
            commit_sha,
            pr_url,
            test_results_json,
            created_at: self.created_at,
            updated_at,
            completed_at,
        }
    }

    /// The task claimed by `agent_id` at `now`: status `claimed`, assigned
    /// to that agent; `None` when the task may not be claimed.
    pub fn claimed_by(&self, agent_id: &str, now: i64) -> (r: Option<AgentTask>)
        ensures
            r is Some <==> claimable(self.status@),
            r matches Some(t) ==> same_order(t, *self) && t.status@ == "claimed"@ && opt_view(
                t.assigned_agent_id,
            ) == Some(agent_id@) && opt_view(t.commit_sha) == opt_view(self.commit_sha)
                && opt_view(t.pr_url) == opt_view(self.pr_url) && opt_view(t.test_results_json)
                == opt_view(self.test_results_json) && t.updated_at == now && t.completed_at
                == self.completed_at,
    {
        if !(str_eq(self.status.as_str(), "received") || str_eq(self.status.as_str(), "claimed")) {
            return None;
        }
        Some(
            self.with_lifecycle(
                owned("claimed"),
                Some(owned(agent_id)),
                copy_opt(&self.commit_sha),
                copy_opt(&self.pr_url),
                copy_opt(&self.test_results_json),
                now,
                self.completed_at,
            ),
        )
    }

    /// The task after a progress report at `now`: the status reported, and
    /// each result reported replacing the old one.
    pub fn with_progress(
        &self,
        status: &str,
        commit_sha: Option<&str>,
        pr_url: Option<&str>,
        test_results: Option<&str>,
        now: i64,
    ) -> (r: AgentTask)
        ensures
            same_order(r, *self),
            r.status@ == status@,
            opt_view(r.assigned_agent_id) == opt_view(self.assigned_agent_id),
            opt_view(r.commit_sha) == reported(opt_str_view(commit_sha), opt_view(self.commit_sha)),
            opt_view(r.pr_url) == reported(opt_str_view(pr_url), opt_view(self.pr_url)),
            opt_view(r.test_results_json) == reported(
                opt_str_view(test_results),
                opt_view(self.test_results_json),
            ),
            r.updated_at == now,
            r.completed_at == self.completed_at,
    {
        self.with_lifecycle(
            owned(status),
            copy_opt(&self.assigned_agent_id),
            report(commit_sha, &self.commit_sha),
            report(pr_url, &self.pr_url),
            report(test_results, &self.test_results_json),
            now,
            self.completed_at,
        )
    }

    /// The task completed at `now`: status `completed`, completion time
    /// `now`, each result reported replacing the old one.
    pub fn completed(
        &self,
        commit_sha: Option<&str>,
        pr_url: Option<&str>,
        test_results: Option<&str>,
        now: i64,
    ) -> (r: AgentTask)
        ensures
            same_order(r, *self),
            r.status@ == "completed"@,
            opt_view(r.assigned_agent_id) == opt_view(self.assigned_agent_id),
            opt_view(r.commit_sha) == reported(opt_str_view(commit_sha), opt_view(self.commit_sha)),
            opt_view(r.pr_url) == reported(opt_str_view(pr_url), opt_view(self.pr_url)),
            opt_view(r.test_results_json) == reported(
                opt_str_view(test_results),
                opt_view(self.test_results_json),
            ),
            r.updated_at == now,
            r.completed_at == Some(now),
    {
        self.with_lifecycle(
            owned("completed"),
            copy_opt(&self.assigned_agent_id),
            report(commit_sha, &self.commit_sha),
            report(pr_url, &self.pr_url),
            report(test_results, &self.test_results_json),
            now,
            Some(now),
        )
    }
}

/// A claimed task can be claimed again (by another agent), and a completed
/// or failed one never.
pub proof fn law_claims(status: TaskStatus)
    ensures
        claimable(status_name(status)) <==> (status == TaskStatus::Received || status
            == TaskStatus::Claimed),
{
    reveal_strlit("received");
    reveal_strlit("claimed");
    reveal_strlit("running");
    reveal_strlit("testing");
    reveal_strlit("pr_opened");
    reveal_strlit("completed");
    reveal_strlit("failed");
    assert("running"@[1] != "received"@[1]);
    assert("testing"@[0] != "received"@[0]);
    assert("completed"@[1] != "claimed"@[1]);
    assert("failed"@[0] != "received"@[0]);
    assert("pr_opened"@[0] != "received"@[0]);
    assert("claimed"@[0] != "received"@[0]);
}

// ---------------------------------------------------------------------------
// Laws
// ---------------------------------------------------------------------------

/// Every status reads back from its own text: the text is ASCII and,
/// lowered, names that status. With the contracts of `to_string` and
/// `from_str`, `TaskStatus::from_str(&s.to_string()) == Some(s)`.
pub proof fn law_status_text_round_trip(s: TaskStatus)
    ensures
        is_ascii_seq(status_name(s)),
        status_from_lower(ascii_lower_seq(status_name(s))) == Some(s),
{
    reveal_strlit("received");
    reveal_strlit("claimed");
    reveal_strlit("running");
    reveal_strlit("testing");
    reveal_strlit("pr_opened");
    reveal_strlit("propened");
    reveal_strlit("completed");
    reveal_strlit("failed");
    let n = status_name(s);
    assert(ascii_lower_seq(n) =~= n);
    match s {
        TaskStatus::Received => {},
        TaskStatus::Claimed => {},
        TaskStatus::Running => {
            assert(n[0] != "claimed"@[0]);
        },
        TaskStatus::Testing => {
            assert(n[0] != "claimed"@[0]);
            assert(n[0] != "running"@[0]);
        },
        TaskStatus::PrOpened => {},
        TaskStatus::Completed => {
            assert(n[0] != "pr_opened"@[0]);
        },
        TaskStatus::Failed => {},
    }
}

/// Every priority reads back from its own text.
pub proof fn law_priority_text_round_trip(p: TaskPriority)
    ensures
        is_ascii_seq(priority_name(p)),
        priority_from_lower(ascii_lower_seq(priority_name(p))) == p,
{
    reveal_strlit("low");
    reveal_strlit("normal");
    reveal_strlit("high");
    reveal_strlit("urgent");
    reveal_strlit("critical");
    let n = priority_name(p);
    assert(ascii_lower_seq(n) =~= n);
    match p {
        TaskPriority::Normal => {
            assert(n[0] != "urgent"@[0]);
        },
        _ => {},
    }
}


/// The priority names, read after lowering: `low`, `high`, `urgent` and its
/// alias `critical` name their priorities, and every other text (`normal`
/// included) means normal. So a task dispatched as `Critical` or
/// `CRITICAL` is urgent.
pub proof fn law_priority_names(t: Seq<char>)
    ensures
        t == "low"@ ==> priority_from_lower(t) == TaskPriority::Low,
        t == "high"@ ==> priority_from_lower(t) == TaskPriority::High,
        t == "urgent"@ ==> priority_from_lower(t) == TaskPriority::Urgent,
        t == "critical"@ ==> priority_from_lower(t) == TaskPriority::Urgent,
        t == "normal"@ ==> priority_from_lower(t) == TaskPriority::Normal,
        t != "low"@ && t != "high"@ && t != "urgent"@ && t != "critical"@ ==> priority_from_lower(t)
            == TaskPriority::Normal,
        ascii_lower_seq("CRITICAL"@) == "critical"@,
{
    reveal_strlit("low");
    reveal_strlit("normal");
    reveal_strlit("high");
    reveal_strlit("urgent");
    reveal_strlit("critical");
    reveal_strlit("CRITICAL");
    assert("normal"@[0] != "urgent"@[0]);
    assert("critical"@.len() != "low"@.len() && "critical"@.len() != "high"@.len()
        && "critical"@.len() != "urgent"@.len());
    assert(ascii_lower_seq("CRITICAL"@) =~= "critical"@);
}

/// The status names, read after lowering: each status by its own name, and
/// `pr_opened` also as `propened`; any other text names no status.
pub proof fn law_status_names(t: Seq<char>)
    ensures
        t == "received"@ ==> status_from_lower(t) == Some(TaskStatus::Received),
        t == "claimed"@ ==> status_from_lower(t) == Some(TaskStatus::Claimed),
        t == "running"@ ==> status_from_lower(t) == Some(TaskStatus::Running),
        t == "testing"@ ==> status_from_lower(t) == Some(TaskStatus::Testing),
        t == "pr_opened"@ ==> status_from_lower(t) == Some(TaskStatus::PrOpened),
        t == "propened"@ ==> status_from_lower(t) == Some(TaskStatus::PrOpened),
        t == "completed"@ ==> status_from_lower(t) == Some(TaskStatus::Completed),
        t == "failed"@ ==> status_from_lower(t) == Some(TaskStatus::Failed),
        t != "received"@ && t != "claimed"@ && t != "running"@ && t != "testing"@ && t
            != "pr_opened"@ && t != "propened"@ && t != "completed"@ && t != "failed"@
            ==> status_from_lower(t) is None,
{
    reveal_strlit("received");
    reveal_strlit("claimed");
    reveal_strlit("running");
    reveal_strlit("testing");
    reveal_strlit("pr_opened");
    reveal_strlit("propened");
    reveal_strlit("completed");
    reveal_strlit("failed");
    assert("claimed"@[0] != "received"@[0]);
    assert("running"@[1] != "received"@[1]);
    assert("testing"@[0] != "received"@[0]);
    assert("failed"@[0] != "received"@[0]);
    assert("propened"@[0] != "received"@[0]);
    assert("completed"@[1] != "claimed"@[1]);
    assert("propened"@.len() != "pr_opened"@.len());
}

} // verus!
