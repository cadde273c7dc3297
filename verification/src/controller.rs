//! The sync controller: one service object owns the session, the job
//! registry, the progress table and the error log, and decides what each
//! command does. A job id moves from idle to running to completed,
//! paused, or superseded; at most one run is live per id at any time.

use vstd::prelude::*;
use crate::errors::ErrorLog;
use crate::progress::{ProgressTable, TaskProgress};
use crate::registry::JobRegistry;
use crate::structs::SessionData;
use crate::text::strip_slash;

verus! {

/// What a `sync` request decided.
#[derive(Clone, Copy, Debug, PartialEq, Eq, Structural)]
pub enum SyncStart {
    /// The id already has a live run: nothing was spawned.
    AlreadyRunning,
    /// A new run was registered; the caller spawns its pipeline.
    Started,
    /// The request carried a paused task: any stale run was cleared and
    /// nothing was spawned.
    NotStarted,
}

/// The engine: the process-wide service that owns every piece of shared
/// state, constructed once and handed to every caller.
pub struct Engine {
    /// The metadata-service endpoint, as configured (possibly with a
    /// trailing slash; reads normalize it).
    pub endpoint: String,
    /// The current authenticated session; every network call reads it,
    /// only login and refresh replace it.
    pub session: SessionData,
    /// The job ids with a live run.
    pub jobs: JobRegistry,
    /// The (current, total) snapshot per running job.
    pub progress: ProgressTable,
    /// Failures surfaced to the caller on request.
    pub errors: ErrorLog,
    /// Whether a recorded failure should also raise a notification.
    pub notify_on_failure: bool,
}

/// Registries are well-formed: no duplicate job id anywhere.
pub open spec fn engine_wf(e: Engine) -> bool {
    e.jobs.wf() && e.progress.wf()
}

/// Everything but the two job registries is untouched.
pub open spec fn spec_same_surroundings(pre: Engine, post: Engine) -> bool {
    post.endpoint == pre.endpoint && post.session == pre.session && post.errors == pre.errors
        && post.notify_on_failure == pre.notify_on_failure
}

/// The job `uuid` is gone — no live run, no progress entry — and nothing
/// else changed.
pub open spec fn spec_cleared(pre: Engine, post: Engine, uuid: Seq<char>) -> bool {
    &&& !post.jobs.spec_has(uuid)
    &&& post.progress.spec_find(uuid) is None
    &&& forall|k: Seq<char>| k != uuid ==> post.jobs.spec_has(k) == pre.jobs.spec_has(k)
    &&& forall|k: Seq<char>|
        k != uuid ==> post.progress.spec_find(k) == pre.progress.spec_find(k)
    &&& spec_same_surroundings(pre, post)
}

/// What one `sync` request does, given whether the id's previous handle
/// (if any) had already finished, and whether the task arrived paused.
pub open spec fn spec_sync_step(
    pre: Engine,
    post: Engine,
    uuid: Seq<char>,
    handle_finished: bool,
    paused: bool,
    r: SyncStart,
) -> bool {
    if pre.jobs.spec_has(uuid) && !handle_finished {
        r is AlreadyRunning && post == pre
    } else if paused {
        r is NotStarted && spec_cleared(pre, post, uuid)
    } else {
        &&& r is Started
        &&& post.jobs.spec_has(uuid)
        &&& forall|k: Seq<char>| k != uuid ==> post.jobs.spec_has(k) == pre.jobs.spec_has(k)
        &&& post.progress.spec_find(uuid) is None
        &&& forall|k: Seq<char>|
            k != uuid ==> post.progress.spec_find(k) == pre.progress.spec_find(k)
        &&& spec_same_surroundings(pre, post)
    }
}

/// What one `progress` query does: it answers the stored snapshot, and a
/// complete snapshot clears its job on the way out.
pub open spec fn spec_progress_step(
    pre: Engine,
    post: Engine,
    uuid: Seq<char>,
    r: Option<TaskProgress>,
) -> bool {
    &&& r == pre.progress.spec_find(uuid)
    &&& match pre.progress.spec_find(uuid) {
        Option::Some(p) => if p.spec_is_complete() {
            spec_cleared(pre, post, uuid)
        } else {
            post == pre
        },
        Option::None => post == pre,
    }
}

impl Engine {
    /// A fresh engine: no session, no jobs, no progress, no errors.
    pub fn new(notify_on_failure: bool) -> (r: Engine)
        ensures
            engine_wf(r),
            forall|k: Seq<char>| !r.jobs.spec_has(k),
            forall|k: Seq<char>| r.progress.spec_find(k) is None,
            r.errors.entries@.len() == 0,
            r.endpoint@ == Seq::<char>::empty(),
            r.session.JWT@ == Seq::<char>::empty(),
            r.notify_on_failure == notify_on_failure,
    {
        Engine {
            endpoint: String::new(),
            session: SessionData::default(),
            jobs: JobRegistry::new(),
            progress: ProgressTable::new(),
            errors: ErrorLog::new(),
            notify_on_failure,
        }
    }

    /// Store the endpoint a connect or login request carried.
    pub fn set_endpoint(&mut self, endpoint: String)
        ensures
            final(self).endpoint == endpoint,
            final(self).session == old(self).session,
            final(self).jobs == old(self).jobs,
            final(self).progress == old(self).progress,
            final(self).errors == old(self).errors,
            final(self).notify_on_failure == old(self).notify_on_failure,
    {
        self.endpoint = endpoint;
    }

    /// The endpoint every request uses: the stored one with a trailing
    /// slash trimmed.
    pub fn get_endpoint(&self) -> (r: String)
        ensures
            r@ == strip_slash(self.endpoint@),
    {
        crate::text::strip_trailing_slash(self.endpoint.as_str())
    }

    /// Replace the session: a login or refresh stores its whole answer
    /// at once, so the last writer wins and readers never see a mix.
    pub fn set_session(&mut self, session: SessionData)
        ensures
            final(self).session == session,
            final(self).endpoint == old(self).endpoint,
            final(self).jobs == old(self).jobs,
            final(self).progress == old(self).progress,
            final(self).errors == old(self).errors,
            final(self).notify_on_failure == old(self).notify_on_failure,
    {
        self.session = session;
    }

    /// The current bearer token for metadata calls.
    pub fn get_jwt(&self) -> (r: String)
        ensures
            r@ == self.session.JWT@,
    {
        self.session.JWT.clone()
    }

    /// A snapshot of the current session, data-plane credentials
    /// included.
    pub fn get_session(&self) -> (r: SessionData)
        ensures
            r == self.session,
    {
        self.session.clone()
    }

    /// Decide a `sync` request for `uuid`. An id with a live run is
    /// rejected unless its handle already finished, in which case the
    /// stale entry is cleared and the new run proceeds; a paused task
    /// only clears. On `Started` the caller spawns the pipeline and owns
    /// its handle under this id.
    pub fn sync(&mut self, uuid: &String, handle_finished: bool, paused: bool) -> (r: SyncStart)
        requires
            engine_wf(*old(self)),
        ensures
            engine_wf(*final(self)),
            spec_sync_step(*old(self), *final(self), uuid@, handle_finished, paused, r),
    {
        let already = self.jobs.contains(uuid);
        if already && !handle_finished {
            return SyncStart::AlreadyRunning;
        }
        self.jobs.remove(uuid);
        self.progress.remove(uuid);
        if paused {
            return SyncStart::NotStarted;
        }
        self.jobs.insert(uuid);
        SyncStart::Started
    }

    /// Pause `uuid`: clear its live run and its progress entry, if any.
    /// Idempotent; the answer says whether a run was live, so the caller
    /// knows to abort its handle.
    pub fn pause(&mut self, uuid: &String) -> (r: bool)
        requires
            engine_wf(*old(self)),
        ensures
            engine_wf(*final(self)),
            spec_cleared(*old(self), *final(self), uuid@),
            r == old(self).jobs.spec_has(uuid@),
    {
        let had = self.jobs.contains(uuid);
        self.jobs.remove(uuid);
        self.progress.remove(uuid);
        had
    }

    /// Answer the progress snapshot for `uuid`, or nothing if the job is
    /// not running. A complete snapshot — every task retired, total
    /// nonzero — clears the job as a side effect of the query, so the
    /// next query answers "not running"; callers poll this to detect
    /// completion.
    pub fn progress(&mut self, uuid: &String) -> (r: Option<TaskProgress>)
        requires
            engine_wf(*old(self)),
        ensures
            engine_wf(*final(self)),
            spec_progress_step(*old(self), *final(self), uuid@, r),
    {
        match self.progress.read(uuid) {
            Option::Some(p) => {
                if p.is_complete() {
                    self.jobs.remove(uuid);
                    self.progress.remove(uuid);
                }
                Option::Some(p)
            },
            Option::None => Option::None,
        }
    }

    /// Retire one unit of work for `uuid`: the snapshot — created fresh
    /// for a job of `total` tasks if the first retirement arrives before
    /// any query — grows by exactly one, and its total never moves.
    /// Progress only increases.
    pub fn mark_progress(&mut self, uuid: &String, total: usize) -> (r: TaskProgress)
        requires
            engine_wf(*old(self)),
            match old(self).progress.spec_find(uuid@) {
                Option::Some(p) => p.current < p.total,
                Option::None => total > 0,
            },
        ensures
            engine_wf(*final(self)),
            final(self).progress.spec_find(uuid@) == Option::Some(r),
            match old(self).progress.spec_find(uuid@) {
                Option::Some(p) => r.current == p.current + 1 && r.total == p.total,
                Option::None => r.current == 1 && r.total == total,
            },
            forall|k: Seq<char>|
                k != uuid@ ==> final(self).progress.spec_find(k) == old(self).progress.spec_find(
                    k,
                ),
            final(self).jobs == old(self).jobs,
            spec_same_surroundings(*old(self), *final(self)),
    {
        let mut p = self.progress.get_progress(uuid, total);
        p.increase();
        self.progress.update_progress(uuid, p);
        p
    }

    /// Record a failure; the answer says whether the caller should also
    /// raise a notification, per the settings read at construction.
    pub fn add_error(&mut self, err: String) -> (notify: bool)
        ensures
            final(self).errors.entries@ == old(self).errors.entries@.push(err),
            notify == old(self).notify_on_failure,
            final(self).endpoint == old(self).endpoint,
            final(self).session == old(self).session,
            final(self).jobs == old(self).jobs,
            final(self).progress == old(self).progress,
            final(self).notify_on_failure == old(self).notify_on_failure,
    {
        self.errors.record(err);
        self.notify_on_failure
    }

    /// A copy of every recorded failure, oldest first.
    pub fn get_errors(&self) -> (r: Vec<String>)
        ensures
            r@ == self.errors.entries@,
    {
        self.errors.get_errors()
    }

    /// Take the newest failure out of the log; an empty log answers the
    /// empty string.
    pub fn pop_error(&mut self) -> (r: String)
        ensures
            old(self).errors.entries@.len() > 0 ==> final(self).errors.entries@ == old(
                self,
            ).errors.entries@.drop_last() && r == old(self).errors.entries@.last(),
            old(self).errors.entries@.len() == 0 ==> final(self).errors.entries@ == old(
                self,
            ).errors.entries@ && r@ == Seq::<char>::empty(),
            final(self).endpoint == old(self).endpoint,
            final(self).session == old(self).session,
            final(self).jobs == old(self).jobs,
            final(self).progress == old(self).progress,
            final(self).notify_on_failure == old(self).notify_on_failure,
    {
        self.errors.pop_error()
    }
}

/// With a run live for a job id and no completion in between, a second
/// `sync` for the same id answers `AlreadyRunning` and changes nothing.
pub proof fn lemma_duplicate_sync_rejected(
    e0: Engine,
    e1: Engine,
    e2: Engine,
    uuid: Seq<char>,
    handle_finished0: bool,
    r2: SyncStart,
)
    requires
        spec_sync_step(e0, e1, uuid, handle_finished0, false, SyncStart::Started),
        spec_sync_step(e1, e2, uuid, false, false, r2),
    ensures
        r2 is AlreadyRunning,
        e2 == e1,
{
}

/// Once a job's run is gone — completed, paused, or auto-cleared — a new
/// `sync` for its id starts again.
pub proof fn lemma_sync_after_completion_starts(
    e2: Engine,
    e3: Engine,
    e4: Engine,
    uuid: Seq<char>,
    handle_finished: bool,
    r4: SyncStart,
)
    requires
        spec_cleared(e2, e3, uuid),
        spec_sync_step(e3, e4, uuid, handle_finished, false, r4),
    ensures
        r4 is Started,
{
}

/// `pause` followed immediately by `progress` answers "not running" for
/// that id.
pub proof fn lemma_progress_after_pause_not_running(
    pre: Engine,
    mid: Engine,
    post: Engine,
    uuid: Seq<char>,
    r: Option<TaskProgress>,
)
    requires
        spec_cleared(pre, mid, uuid),
        spec_progress_step(mid, post, uuid, r),
    ensures
        r is None,
        post == mid,
{
}

/// A `progress` query that sees every task retired (with work done)
/// auto-clears the job: it still answers that snapshot, and the next
/// query answers "not running".
pub proof fn lemma_complete_progress_auto_clears(
    pre: Engine,
    mid: Engine,
    post: Engine,
    uuid: Seq<char>,
    p: TaskProgress,
    r1: Option<TaskProgress>,
    r2: Option<TaskProgress>,
)
    requires
        pre.progress.spec_find(uuid) == Option::Some(p),
        p.spec_is_complete(),
        spec_progress_step(pre, mid, uuid, r1),
        spec_progress_step(mid, post, uuid, r2),
    ensures
        r1 == Option::Some(p),
        r2 is None,
        post == mid,
{
}

} // verus!
