use agentbox_mail::engine::tasks::{AgentTask, TaskAuditLog, TaskPriority, TaskStatus};

#[test]
fn status_text_round_trips() {
    for s in [
        TaskStatus::Received,
        TaskStatus::Claimed,
        TaskStatus::Running,
        TaskStatus::Testing,
        TaskStatus::Completed,
        TaskStatus::Failed,
    ] {
        assert_eq!(TaskStatus::from_str(&s.to_string()), Some(s));
    }
    assert_eq!(TaskStatus::from_str("COMPLETED"), Some(TaskStatus::Completed));
    assert_eq!(TaskStatus::from_str("done"), None);
}

#[test]
fn terminal_states() {
    assert!(TaskStatus::Completed.is_terminal());
    assert!(TaskStatus::Failed.is_terminal());
    assert!(!TaskStatus::Running.is_terminal());
    assert!(!TaskStatus::Received.is_terminal());
}

#[test]
fn priority_text_round_trips_and_defaults() {
    for p in [TaskPriority::Low, TaskPriority::Normal, TaskPriority::High, TaskPriority::Urgent] {
        assert_eq!(TaskPriority::from_str(&p.to_string()), p);
    }
    assert_eq!(TaskPriority::from_str("HIGH"), TaskPriority::High);
    assert_eq!(TaskPriority::from_str("whenever"), TaskPriority::Normal);
}

#[test]
fn new_task_fields() {
    let t = AgentTask::new(
        "jules",
        Some("coder"),
        "fix_bug",
        Some("RABNEER/EstateFlow"),
        None,
        TaskPriority::High,
        "Dedup results",
        Some(vec!["tests/a.ts:87".to_string()]),
        None,
    );
    assert!(t.id.starts_with("task_"));
    assert_eq!(t.id.len(), 13);
    assert_eq!(t.branch, "main");
    assert_eq!(t.priority, "high");
    assert_eq!(t.status, "received");
    assert_eq!(t.evidence_json, Some("[\"tests/a.ts:87\"]".to_string()));
    assert_eq!(t.acceptance_criteria_json, None);
    assert_eq!(t.created_at, t.updated_at);
    assert!(t.assigned_agent_id.is_none() && t.completed_at.is_none());
}

#[test]
fn assembled_task_uses_the_uuid() {
    let t = AgentTask::assemble(
        "a",
        None,
        "act",
        None,
        Some("dev"),
        TaskPriority::Low,
        "d",
        None,
        None,
        "12345678-9abc-def0-1234-56789abcdef0",
        77,
    );
    assert_eq!(t.id, "task_12345678");
    assert_eq!(t.branch, "dev");
    assert_eq!(t.created_at, 77);
}

#[test]
fn audit_entries() {
    let a = TaskAuditLog::assemble("task_1", "agent_1", "task.claimed", None, "abcdef01-2345-6789-abcd-ef0123456789", 5);
    assert_eq!(a.id, "audit_abcdef0123");
    assert_eq!(a.event_type, "task.claimed");
    let b = TaskAuditLog::new("task_1", "agent_1", "task.created", Some("{}".to_string()));
    assert!(b.id.starts_with("audit_"));
    assert_eq!(b.id.len(), 16);
    assert_eq!(b.details_json, Some("{}".to_string()));
}

fn received_task() -> AgentTask {
    AgentTask::assemble(
        "agent_jules_1",
        None,
        "fix_bug",
        Some("RABNEER/EstateFlow"),
        None,
        TaskPriority::High,
        "duplicates",
        None,
        None,
        "abcdef01-2345-6789-abcd-ef0123456789",
        100,
    )
}

#[test]
fn lifecycle_claim_progress_complete() {
    let t = received_task();
    let claimed = t.claimed_by("agent_coder_1", 110).expect("a received task can be claimed");
    assert_eq!(claimed.status, "claimed");
    assert_eq!(claimed.assigned_agent_id, Some("agent_coder_1".to_string()));
    assert_eq!(claimed.updated_at, 110);
    assert_eq!(claimed.created_at, 100);
    assert_eq!(claimed.id, t.id);
    let retaken = claimed.claimed_by("agent_other_2", 111).expect("a claim passes on");
    assert_eq!(retaken.assigned_agent_id, Some("agent_other_2".to_string()));

    let progressed = claimed.with_progress("pr_opened", Some("a91f4b23"), Some("https://x/pull/42"), None, 120);
    assert_eq!(progressed.status, "pr_opened");
    assert_eq!(progressed.commit_sha, Some("a91f4b23".to_string()));
    assert_eq!(progressed.test_results_json, None);
    assert!(progressed.claimed_by("agent_other_2", 121).is_none());

    let done = progressed.completed(None, None, Some("143 passed"), 130);
    assert_eq!(done.status, "completed");
    assert_eq!(done.completed_at, Some(130));
    assert_eq!(done.updated_at, 130);
    assert_eq!(done.commit_sha, Some("a91f4b23".to_string()));
    assert_eq!(done.pr_url, Some("https://x/pull/42".to_string()));
    assert_eq!(done.test_results_json, Some("143 passed".to_string()));
    assert_eq!(done.assigned_agent_id, Some("agent_coder_1".to_string()));
    assert!(done.claimed_by("agent_coder_1", 131).is_none());
}
