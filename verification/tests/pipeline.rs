//! The transfer pipeline's decisions: skip checks, rejection
//! classification, verdicts, retry passes, and the two end-to-end
//! scenarios run against the engine.

use cells_sync::controller::{Engine, SyncStart};
use cells_sync::progress::TaskProgress;
use cells_sync::structs::{BulkMetaStore, BulkNode, FileEntry, SyncTask};
use cells_sync::transfer::{
    classify_put_error, plan_task, process_pass, task_verdict, unchanged_on_remote, worker_limit,
    TaskStep, TransferOutcome,
};
use cells_sync::walker::collect_tasks;

fn node(path: &str, etag: &str) -> BulkNode {
    BulkNode {
        Uuid: "u".to_string(),
        Path: path.to_string(),
        Type: "LEAF".to_string(),
        Etag: etag.to_string(),
        MetaStore: BulkMetaStore {
            ws_label: String::new(),
            ws_syncable: String::new(),
            name: String::new(),
        },
    }
}

fn task(from: &str, to: &str) -> SyncTask {
    SyncTask { from: from.to_string(), to: to.to_string() }
}

#[test]
fn matching_tag_skips_upload_but_counts_progress() {
    let nodes = vec![node("remote/b.txt", "abc123")];
    let local = Some("abc123".to_string());
    assert!(unchanged_on_remote(&nodes, &local));
    let step = plan_task(true, &nodes, &local);
    assert!(matches!(step, TaskStep::Skip));
    // The skip retires the task — one unit of progress — and never
    // requeues it: zero upload calls for this file.
    let v = task_verdict(TransferOutcome::SkippedUnchanged);
    assert!(v.retire);
    assert!(!v.requeue);
    assert!(!v.refresh);
    assert!(!v.record);
}

#[test]
fn differing_tag_uploads() {
    let nodes = vec![node("remote/a.txt", "abc123")];
    let local = Some("def456".to_string());
    assert!(!unchanged_on_remote(&nodes, &local));
    assert!(matches!(plan_task(true, &nodes, &local), TaskStep::Upload));
}

#[test]
fn missing_remote_node_uploads() {
    let nodes: Vec<BulkNode> = Vec::new();
    let local = Some("abc123".to_string());
    assert!(matches!(plan_task(true, &nodes, &local), TaskStep::Upload));
}

#[test]
fn failed_fingerprint_uploads_conservatively() {
    // A hash failure means "treat the file as changed, do not skip".
    let nodes = vec![node("remote/a.txt", "abc123")];
    assert!(matches!(plan_task(true, &nodes, &None), TaskStep::Upload));
}

#[test]
fn failed_read_requeues() {
    let nodes = vec![node("remote/a.txt", "abc123")];
    let local = Some("abc123".to_string());
    assert!(matches!(plan_task(false, &nodes, &local), TaskStep::Requeue));
}

#[test]
fn access_denied_code_classified_as_auth_expiry() {
    let o = classify_put_error(&Some("AccessDenied".to_string()));
    assert!(matches!(o, TransferOutcome::AccessDenied));
    let v = task_verdict(o);
    assert!(!v.retire);
    assert!(v.requeue);
    assert!(v.refresh);
    assert!(!v.record);
}

#[test]
fn not_implemented_code_classified_as_unsupported() {
    let o = classify_put_error(&Some("NotImplemented".to_string()));
    assert!(matches!(o, TransferOutcome::Unsupported));
    let v = task_verdict(o);
    // Permanently skippable: counts as progress, recorded, not retried.
    assert!(v.retire);
    assert!(!v.requeue);
    assert!(!v.refresh);
    assert!(v.record);
}

#[test]
fn other_codes_and_missing_codes_are_transient() {
    let o1 = classify_put_error(&Some("SlowDown".to_string()));
    assert!(matches!(o1, TransferOutcome::Transient));
    let o2 = classify_put_error(&None);
    assert!(matches!(o2, TransferOutcome::Transient));
    let v = task_verdict(o1);
    assert!(!v.retire);
    assert!(v.requeue);
    assert!(!v.refresh);
    assert!(v.record);
}

#[test]
fn transient_failure_reappears_in_next_pass() {
    let tasks = vec![task("/r/a", "w/a"), task("/r/b", "w/b"), task("/r/c", "w/c")];
    let outs = vec![
        TransferOutcome::Success,
        TransferOutcome::Transient,
        TransferOutcome::Success,
    ];
    let pass = process_pass(&tasks, &outs);
    assert_eq!(pass.completed, 2);
    assert!(!pass.refresh);
    // The failed task is not silently dropped: it is the next queue.
    assert_eq!(pass.requeued.len(), 1);
    assert_eq!(pass.requeued[0].from, "/r/b".to_string());
    assert_eq!(pass.requeued[0].to, "w/b".to_string());
}

#[test]
fn every_task_retires_or_requeues() {
    let tasks = vec![task("/r/a", "w/a"), task("/r/b", "w/b"), task("/r/c", "w/c")];
    let outs = vec![
        TransferOutcome::Unsupported,
        TransferOutcome::AccessDenied,
        TransferOutcome::SkippedUnchanged,
    ];
    let pass = process_pass(&tasks, &outs);
    assert_eq!(pass.completed + pass.requeued.len(), tasks.len());
    assert!(pass.refresh);
    assert_eq!(pass.requeued.len(), 1);
    assert_eq!(pass.requeued[0].from, "/r/b".to_string());
}

#[test]
fn worker_limit_defaults_to_eight() {
    assert_eq!(worker_limit(None), 8);
    assert_eq!(worker_limit(Some(0)), 8);
    assert_eq!(worker_limit(Some(3)), 3);
}

/// End to end: `a.txt` is new, `b.txt` matches its remote tag. Exactly
/// `a.txt` is uploaded, both count as progress, and the job reports
/// (2, 2) when done.
#[test]
fn two_files_one_changed_uploads_exactly_one() {
    let mut e = Engine::new(false);
    let id = "job-e2e".to_string();
    assert!(matches!(e.sync(&id, false, false), SyncStart::Started));

    // The walk under the local root found two files.
    let files = vec![
        FileEntry {
            path: "/root/a.txt".to_string(),
            components: vec!["/".to_string(), "root".to_string(), "a.txt".to_string()],
            rel: "a.txt".to_string(),
        },
        FileEntry {
            path: "/root/b.txt".to_string(),
            components: vec!["/".to_string(), "root".to_string(), "b.txt".to_string()],
            rel: "b.txt".to_string(),
        },
    ];
    let tasks = collect_tasks(&files, &Vec::new(), "ws/backup");
    assert_eq!(tasks.len(), 2);
    assert_eq!(tasks[0].to, "ws/backup/a.txt".to_string());
    assert_eq!(tasks[1].to, "ws/backup/b.txt".to_string());
    let total = tasks.len();

    // a.txt: no remote node yet — upload it.
    let a_step = plan_task(true, &Vec::new(), &Some("tag-a".to_string()));
    assert!(matches!(a_step, TaskStep::Upload));
    // b.txt: the remote tag equals the local fingerprint — skip, no
    // upload call for this file.
    let b_nodes = vec![node("ws/backup/b.txt", "tag-b")];
    let b_step = plan_task(true, &b_nodes, &Some("tag-b".to_string()));
    assert!(matches!(b_step, TaskStep::Skip));

    let outs = vec![TransferOutcome::Success, TransferOutcome::SkippedUnchanged];
    let pass = process_pass(&tasks, &outs);
    assert_eq!(pass.completed, 2);
    assert!(pass.requeued.is_empty());
    assert!(!pass.refresh);

    e.mark_progress(&id, total);
    e.mark_progress(&id, total);
    assert_eq!(e.progress(&id), Some(TaskProgress { total: 2, current: 2 }));
    // No failure was recorded along the way.
    assert!(e.get_errors().is_empty());
}

/// End to end: the upload is rejected with AccessDenied once, the
/// session is refreshed, and the retry succeeds — the job completes and
/// no permanent error is logged.
#[test]
fn access_denied_retry_completes_without_permanent_error() {
    let mut e = Engine::new(false);
    let id = "job-retry".to_string();
    assert!(matches!(e.sync(&id, false, false), SyncStart::Started));

    let tasks = vec![task("/root/a.txt", "ws/backup/a.txt")];
    let total = tasks.len();

    // First pass: the data plane rejects the credentials.
    let o = classify_put_error(&Some("AccessDenied".to_string()));
    let pass1 = process_pass(&tasks, &vec![o]);
    assert_eq!(pass1.completed, 0);
    assert_eq!(pass1.requeued.len(), 1);
    // The pass demands a session refresh before the next attempt, and
    // records nothing.
    assert!(pass1.refresh);
    assert!(!task_verdict(o).record);

    // Second pass, after the refresh: the retry succeeds.
    let pass2 = process_pass(&pass1.requeued, &vec![TransferOutcome::Success]);
    assert_eq!(pass2.completed, 1);
    assert!(pass2.requeued.is_empty());

    e.mark_progress(&id, total);
    assert_eq!(e.progress(&id), Some(TaskProgress { total: 1, current: 1 }));
    assert!(e.get_errors().is_empty());
    // The job auto-cleared on the completed query.
    assert!(e.progress(&id).is_none());
}
