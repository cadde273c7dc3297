//! The upload pipeline's decisions: the pre-upload skip check against the
//! remote tag, classification of data-plane rejections, the per-task
//! verdict, and the per-pass bookkeeping that retries failed tasks until
//! the queue drains.

use vstd::prelude::*;
use crate::structs::{BulkNode, SyncTask};

verus! {

/// What to do with one task before any byte is sent.
#[derive(Clone, Copy, Debug, PartialEq, Eq, Structural)]
pub enum TaskStep {
    /// The local file could not be read: try again in a later pass.
    Requeue,
    /// The remote tag equals the local fingerprint: retire without sending.
    Skip,
    /// The file changed (or we cannot tell): send it.
    Upload,
}

/// How one attempt at transferring a single file ended.
#[derive(Clone, Copy, Debug, PartialEq, Eq, Structural)]
pub enum TransferOutcome {
    /// The object was stored on the data plane.
    Success,
    /// The remote tag matched the local fingerprint; nothing was sent.
    SkippedUnchanged,
    /// The backend rejected the object as one it cannot store.
    Unsupported,
    /// The data plane rejected the credentials; they must be refreshed.
    AccessDenied,
    /// Any other failure: network, timeout, or a local read error.
    Transient,
}

/// The engine's ruling on one finished attempt.
#[derive(Clone, Copy, Debug, PartialEq, Eq, Structural)]
pub struct Verdict {
    /// The task is done: count one unit of progress, do not retry.
    pub retire: bool,
    /// The task goes back on the queue for a later pass.
    pub requeue: bool,
    /// The session credentials must be refreshed before further sends.
    pub refresh: bool,
    /// The failure is recorded in the error log.
    pub record: bool,
}

/// The first remote node carries a tag equal to the local fingerprint:
/// the file is unchanged. A missing node, a missing fingerprint, or any
/// difference means the file is conservatively treated as changed.
pub open spec fn spec_unchanged(nodes: Seq<BulkNode>, local_etag: Option<String>) -> bool {
    match local_etag {
        Option::Some(tag) => nodes.len() > 0 && nodes[0].Etag@ == tag@,
        Option::None => false,
    }
}

/// What the pipeline does with a task after reading the file and looking
/// up the destination node, before any upload.
pub open spec fn spec_plan(read_ok: bool, nodes: Seq<BulkNode>, local_etag: Option<String>) -> TaskStep {
    if !read_ok {
        TaskStep::Requeue
    } else if spec_unchanged(nodes, local_etag) {
        TaskStep::Skip
    } else {
        TaskStep::Upload
    }
}

/// An outcome retires its task: success, an unchanged skip, and an
/// unsupported object all count as done.
pub open spec fn spec_retires(o: TransferOutcome) -> bool {
    o is Success || o is SkippedUnchanged || o is Unsupported
}

/// The ruling for each outcome: retire or requeue (never both, never
/// neither), refresh only on a credential rejection, record unsupported
/// objects and transient failures.
pub open spec fn spec_verdict(o: TransferOutcome) -> Verdict {
    Verdict {
        retire: spec_retires(o),
        requeue: !spec_retires(o),
        refresh: o is AccessDenied,
        record: o is Unsupported || o is Transient,
    }
}

/// Decide whether the file is unchanged on the remote: exact,
/// character-for-character equality of the stored tag with the local
/// content fingerprint, on the first node the metadata service returned.
pub fn unchanged_on_remote(nodes: &Vec<BulkNode>, local_etag: &Option<String>) -> (r: bool)
    ensures
        r == spec_unchanged(nodes@, *local_etag),
{
    match local_etag {
        Option::Some(tag) => {
            if nodes.len() > 0 {
                crate::text::str_eq(nodes[0].Etag.as_str(), tag.as_str())
            } else {
                false
            }
        },
        Option::None => false,
    }
}

/// Plan one task: a failed read is retried later, an unchanged file is
/// skipped, anything else is uploaded.
pub fn plan_task(read_ok: bool, nodes: &Vec<BulkNode>, local_etag: &Option<String>) -> (s: TaskStep)
    ensures
        s == spec_plan(read_ok, nodes@, *local_etag),
{
    if !read_ok {
        TaskStep::Requeue
    } else if unchanged_on_remote(nodes, local_etag) {
        TaskStep::Skip
    } else {
        TaskStep::Upload
    }
}

/// Classify a data-plane rejection by its error code: "AccessDenied"
/// invalidates the credentials, "NotImplemented" marks the object as one
/// the backend cannot store, and everything else — another code, or no
/// code at all — is transient.
pub fn classify_put_error(code: &Option<String>) -> (o: TransferOutcome)
    ensures
        o == spec_classify(*code),
{
    match code {
        Option::Some(c) => {
            if crate::text::str_eq(c.as_str(), "AccessDenied") {
                TransferOutcome::AccessDenied
            } else if crate::text::str_eq(c.as_str(), "NotImplemented") {
                TransferOutcome::Unsupported
            } else {
                TransferOutcome::Transient
            }
        },
        Option::None => TransferOutcome::Transient,
    }
}

/// The outcome that each data-plane error code maps to.
pub open spec fn spec_classify(code: Option<String>) -> TransferOutcome {
    match code {
        Option::Some(c) => if c@ == "AccessDenied"@ {
            TransferOutcome::AccessDenied
        } else if c@ == "NotImplemented"@ {
            TransferOutcome::Unsupported
        } else {
            TransferOutcome::Transient
        },
        Option::None => TransferOutcome::Transient,
    }
}

/// The ruling on one finished attempt.
pub fn task_verdict(o: TransferOutcome) -> (v: Verdict)
    ensures
        v == spec_verdict(o),
{
    match o {
        TransferOutcome::Success => Verdict {
            retire: true,
            requeue: false,
            refresh: false,
            record: false,
        },
        TransferOutcome::SkippedUnchanged => Verdict {
            retire: true,
            requeue: false,
            refresh: false,
            record: false,
        },
        TransferOutcome::Unsupported => Verdict {
            retire: true,
            requeue: false,
            refresh: false,
            record: true,
        },
        TransferOutcome::AccessDenied => Verdict {
            retire: false,
            requeue: true,
            refresh: true,
            record: false,
        },
        TransferOutcome::Transient => Verdict {
            retire: false,
            requeue: true,
            refresh: false,
            record: true,
        },
    }
}

/// The tasks of one pass that come back for the next pass, in order:
/// exactly those whose outcome does not retire them.
pub open spec fn spec_requeued(tasks: Seq<SyncTask>, outs: Seq<TransferOutcome>) -> Seq<SyncTask>
    decreases tasks.len(),
{
    if tasks.len() == 0 {
        Seq::empty()
    } else {
        spec_requeued(tasks.drop_last(), outs.drop_last()) + if spec_retires(
            outs[outs.len() - 1],
        ) {
            Seq::empty()
        } else {
            seq![tasks[tasks.len() - 1]]
        }
    }
}

/// How many outcomes of one pass retire their task.
pub open spec fn spec_retired_count(outs: Seq<TransferOutcome>) -> nat
    decreases outs.len(),
{
    if outs.len() == 0 {
        0
    } else {
        spec_retired_count(outs.drop_last()) + if spec_retires(outs[outs.len() - 1]) {
            1nat
        } else {
            0nat
        }
    }
}

/// What one pass over the queue produced.
pub struct PassResult {
    /// The queue for the next pass: every task not retired, in order.
    pub requeued: Vec<SyncTask>,
    /// How many tasks were retired: the progress earned by this pass.
    pub completed: usize,
    /// Whether some attempt saw its credentials rejected, so the session
    /// must be refreshed before the next pass.
    pub refresh: bool,
}

/// Account for one pass over the task queue, given the outcome of each
/// attempt: tasks that retired count as progress, the rest come back for
/// the next pass, and a credential rejection anywhere demands a refresh.
/// No task is lost: every task either retires or is requeued.
pub fn process_pass(tasks: &Vec<SyncTask>, outs: &Vec<TransferOutcome>) -> (r: PassResult)
    requires
        tasks@.len() == outs@.len(),
    ensures
        r.requeued@ == spec_requeued(tasks@, outs@),
        r.completed == spec_retired_count(outs@),
        r.refresh == exists|i: int| 0 <= i < outs@.len() && outs@[i] is AccessDenied,
        r.completed + r.requeued@.len() == tasks@.len(),
{
    let n = tasks.len();
    let mut requeued: Vec<SyncTask> = Vec::new();
    let mut completed: usize = 0;
    let mut refresh = false;
    let mut i: usize = 0;
    while i < n
        invariant
            n == tasks@.len(),
            n == outs@.len(),
            i <= n,
            requeued@ == spec_requeued(tasks@.subrange(0, i as int), outs@.subrange(0, i as int)),
            completed == spec_retired_count(outs@.subrange(0, i as int)),
            refresh == exists|k: int| 0 <= k < i && outs@[k] is AccessDenied,
            completed + requeued@.len() == i,
        decreases n - i,
    {
        let v = task_verdict(outs[i]);
        if v.retire {
            completed = completed + 1;
        } else {
            requeued.push(tasks[i].clone());
        }
        if v.refresh {
            refresh = true;
        }
        proof {
            let tpre = tasks@.subrange(0, i as int);
            let opre = outs@.subrange(0, i as int);
            let tcur = tasks@.subrange(0, i + 1 as int);
            let ocur = outs@.subrange(0, i + 1 as int);
            assert(tcur.drop_last() =~= tpre);
            assert(ocur.drop_last() =~= opre);
            assert(tcur[tcur.len() - 1] == tasks@[i as int]);
            assert(ocur[ocur.len() - 1] == outs@[i as int]);
            if !spec_retires(outs@[i as int]) {
                assert(requeued@ =~= spec_requeued(tpre, opre) + seq![tasks@[i as int]]);
            }
        }
        i = i + 1;
    }
    proof {
        assert(tasks@.subrange(0, n as int) =~= tasks@);
        assert(outs@.subrange(0, n as int) =~= outs@);
    }
    PassResult { requeued, completed, refresh }
}

/// The number of concurrent transfer slots a job runs with: its
/// configured parallelism, or eight when none is set.
pub fn worker_limit(configured: Option<usize>) -> (r: usize)
    ensures
        r == match configured {
            Option::Some(n) => if n > 0 {
                n
            } else {
                8
            },
            Option::None => 8,
        },
{
    match configured {
        Option::Some(n) => if n > 0 {
            n
        } else {
            8
        },
        Option::None => 8,
    }
}

/// A file whose remote tag equals its local content fingerprint is
/// skipped — no upload — and the skip still retires the task, so it is
/// counted as progress and never requeued.
pub proof fn lemma_unchanged_file_is_skipped_and_counted(
    read_ok: bool,
    nodes: Seq<BulkNode>,
    local_etag: Option<String>,
)
    requires
        read_ok,
        local_etag is Some,
        nodes.len() > 0,
        nodes[0].Etag@ == local_etag.unwrap()@,
    ensures
        spec_plan(read_ok, nodes, local_etag) is Skip,
        spec_verdict(TransferOutcome::SkippedUnchanged).retire,
        !spec_verdict(TransferOutcome::SkippedUnchanged).requeue,
{
}

/// A transient transfer failure is never silently dropped: its task
/// reappears in the queue of the following pass.
pub proof fn lemma_transient_task_reappears(
    tasks: Seq<SyncTask>,
    outs: Seq<TransferOutcome>,
    i: int,
)
    requires
        tasks.len() == outs.len(),
        0 <= i < outs.len(),
        !spec_retires(outs[i]),
    ensures
        spec_requeued(tasks, outs).contains(tasks[i]),
    decreases tasks.len(),
{
    if i == tasks.len() - 1 {
        let r = spec_requeued(tasks, outs);
        assert(r[r.len() - 1] == tasks[i]);
    } else {
        lemma_transient_task_reappears(tasks.drop_last(), outs.drop_last(), i);
        let rpre = spec_requeued(tasks.drop_last(), outs.drop_last());
        let r = spec_requeued(tasks, outs);
        let k = choose|k: int| 0 <= k < rpre.len() && rpre[k] == tasks.drop_last()[i];
        assert(r[k] == tasks[i]);
    }
}

/// A pass in which every attempt retires its task — success, unchanged
/// skip, or a permanently skippable object — leaves nothing behind: the
/// job is complete.
pub proof fn lemma_pass_drains_when_all_retire(tasks: Seq<SyncTask>, outs: Seq<TransferOutcome>)
    requires
        tasks.len() == outs.len(),
        forall|i: int| 0 <= i < outs.len() ==> spec_retires(outs[i]),
    ensures
        spec_requeued(tasks, outs).len() == 0,
    decreases tasks.len(),
{
    if tasks.len() > 0 {
        lemma_pass_drains_when_all_retire(tasks.drop_last(), outs.drop_last());
    }
}

/// Every task of a pass is accounted for: the retired count plus the
/// requeued count is the whole queue.
pub proof fn lemma_no_task_lost(tasks: Seq<SyncTask>, outs: Seq<TransferOutcome>)
    requires
        tasks.len() == outs.len(),
    ensures
        spec_retired_count(outs) + spec_requeued(tasks, outs).len() == tasks.len(),
    decreases tasks.len(),
{
    if tasks.len() > 0 {
        lemma_no_task_lost(tasks.drop_last(), outs.drop_last());
    }
}

} // verus!
