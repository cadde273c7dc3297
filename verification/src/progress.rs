//! Progress accounting: a (current, total) snapshot per running job,
//! held in a table keyed by job id. `current` only grows, `total` is set
//! once at job start, and an entry lives exactly as long as its job.

use vstd::prelude::*;

verus! {

/// A (current, total) progress snapshot for one running job.
///
/// `current` counts retired transfer tasks; `total` is fixed when the job
/// starts. A well-formed snapshot never counts past its total.
#[derive(Clone, Copy, Debug, PartialEq, Eq, Structural)]
pub struct TaskProgress {
    pub total: usize,
    pub current: usize,
}

impl TaskProgress {
    /// All progress snapshots keep `current` within `total`.
    pub open spec fn wf(self) -> bool {
        self.current <= self.total
    }

    /// A fresh snapshot for a job of `total` tasks, nothing retired yet.
    pub fn new(total: usize) -> (r: TaskProgress)
        ensures
            r.total == total,
            r.current == 0,
            r.wf(),
    {
        TaskProgress { total, current: 0 }
    }

    /// Retire one unit of work.
    pub fn increase(&mut self)
        requires
            old(self).current < old(self).total,
        ensures
            final(self).current == old(self).current + 1,
            final(self).total == old(self).total,
            final(self).wf(),
    {
        self.current = self.current + 1;
    }

    /// A job is complete when every task is retired and there was work to
    /// do.
    pub open spec fn spec_is_complete(self) -> bool {
        self.current == self.total && self.total != 0
    }

    /// Executable completion check, matching `spec_is_complete`.
    pub fn is_complete(&self) -> (r: bool)
        ensures
            r == self.spec_is_complete(),
    {
        self.current == self.total && self.total != 0
    }
}

/// The snapshot stored under key `k`: the value beside the first — under
/// well-formedness, the only — entry whose key reads `k`.
pub open spec fn tbl_find(s: Seq<(String, TaskProgress)>, k: Seq<char>) -> Option<TaskProgress>
    decreases s.len(),
{
    if s.len() == 0 {
        Option::None
    } else if s[0].0@ == k {
        Option::Some(s[0].1)
    } else {
        tbl_find(s.drop_first(), k)
    }
}

/// No two entries share a key.
pub open spec fn tbl_wf(s: Seq<(String, TaskProgress)>) -> bool {
    forall|i: int, j: int| 0 <= i < j < s.len() ==> s[i].0@ != s[j].0@
}

/// If no entry before `i` matches and entry `i` does, the lookup answers
/// with entry `i`.
proof fn lemma_find_at(s: Seq<(String, TaskProgress)>, k: Seq<char>, i: int)
    requires
        0 <= i < s.len(),
        s[i].0@ == k,
        forall|j: int| 0 <= j < i ==> s[j].0@ != k,
    ensures
        tbl_find(s, k) == Option::Some(s[i].1),
    decreases i,
{
    if i > 0 {
        lemma_find_at(s.drop_first(), k, i - 1);
    }
}

/// If no entry matches, the lookup answers nothing.
proof fn lemma_find_none(s: Seq<(String, TaskProgress)>, k: Seq<char>)
    requires
        forall|j: int| 0 <= j < s.len() ==> s[j].0@ != k,
    ensures
        tbl_find(s, k) == Option::None::<TaskProgress>,
    decreases s.len(),
{
    if s.len() > 0 {
        lemma_find_none(s.drop_first(), k);
    }
}

/// Appending an entry answers lookups for its key that found nothing
/// before, and changes no other answer.
proof fn lemma_find_push(
    s: Seq<(String, TaskProgress)>,
    e: (String, TaskProgress),
    k: Seq<char>,
)
    ensures
        tbl_find(s, k) is Some ==> tbl_find(s.push(e), k) == tbl_find(s, k),
        tbl_find(s, k) is None && e.0@ == k ==> tbl_find(s.push(e), k) == Option::Some(e.1),
        tbl_find(s, k) is None && e.0@ != k ==> tbl_find(s.push(e), k) == Option::None::<
            TaskProgress,
        >,
    decreases s.len(),
{
    if s.len() == 0 {
        assert(s.push(e)[0] == e);
        assert(s.push(e).drop_first() =~= Seq::<(String, TaskProgress)>::empty());
        assert(tbl_find(s.push(e).drop_first(), k) == Option::None::<TaskProgress>);
    } else {
        assert(s.push(e)[0] == s[0]);
        assert(s.push(e).drop_first() =~= s.drop_first().push(e));
        lemma_find_push(s.drop_first(), e, k);
    }
}

/// Removing the entry at `i` clears its key's answer and keeps every
/// other answer, provided keys are unique.
proof fn lemma_find_remove(s: Seq<(String, TaskProgress)>, i: int, k: Seq<char>)
    requires
        0 <= i < s.len(),
        tbl_wf(s),
    ensures
        tbl_find(s.remove(i), k) == if s[i].0@ == k {
            Option::None::<TaskProgress>
        } else {
            tbl_find(s, k)
        },
    decreases i,
{
    if i == 0 {
        assert(s.remove(0) =~= s.drop_first());
        if s[0].0@ == k {
            assert(forall|j: int| 0 <= j < s.drop_first().len() ==> s.drop_first()[j].0@ != k);
            lemma_find_none(s.drop_first(), k);
        }
    } else {
        assert(s.remove(i)[0] == s[0]);
        assert(s.remove(i).drop_first() =~= s.drop_first().remove(i - 1));
        assert(tbl_wf(s.drop_first())) by {
            assert(forall|a: int, b: int|
                0 <= a < b < s.drop_first().len() ==> s.drop_first()[a].0@
                    != s.drop_first()[b].0@);
        }
        lemma_find_remove(s.drop_first(), i - 1, k);
    }
}

/// Removing an entry keeps the remaining keys unique.
proof fn lemma_wf_remove(s: Seq<(String, TaskProgress)>, i: int)
    requires
        0 <= i < s.len(),
        tbl_wf(s),
    ensures
        tbl_wf(s.remove(i)),
{
    assert forall|a: int, b: int|
        0 <= a < b < s.remove(i).len() implies s.remove(i)[a].0@ != s.remove(i)[b].0@ by {
        let a0: int = if a < i {
            a
        } else {
            a + 1
        };
        let b0: int = if b < i {
            b
        } else {
            b + 1
        };
        assert(s.remove(i)[a] == s[a0]);
        assert(s.remove(i)[b] == s[b0]);
    }
}

/// The per-job progress table. Keys are job ids; at most one entry per
/// id.
pub struct ProgressTable {
    pub entries: Vec<(String, TaskProgress)>,
}

impl ProgressTable {
    /// Keys are unique.
    pub open spec fn wf(self) -> bool {
        tbl_wf(self.entries@)
    }

    /// The snapshot stored for job `k`, if one is.
    pub open spec fn spec_find(self, k: Seq<char>) -> Option<TaskProgress> {
        tbl_find(self.entries@, k)
    }

    /// An empty table.
    pub fn new() -> (r: ProgressTable)
        ensures
            r.wf(),
            forall|k: Seq<char>| r.spec_find(k) == Option::None::<TaskProgress>,
    {
        let t = ProgressTable { entries: Vec::new() };
        proof {
            assert forall|k: Seq<char>| t.spec_find(k) == Option::None::<TaskProgress> by {
                lemma_find_none(t.entries@, k);
            }
        }
        t
    }

    /// The index of the entry for `uuid`, if one is.
    fn find_index(&self, uuid: &String) -> (r: Option<usize>)
        ensures
            match r {
                Option::Some(i) => i < self.entries@.len() && self.entries@[i as int].0@ == uuid@
                    && self.spec_find(uuid@) == Option::Some(self.entries@[i as int].1),
                Option::None => self.spec_find(uuid@) == Option::None::<TaskProgress>,
            },
    {
        let n = self.entries.len();
        let mut i: usize = 0;
        while i < n
            invariant
                n == self.entries@.len(),
                i <= n,
                forall|j: int| 0 <= j < i ==> self.entries@[j].0@ != uuid@,
            decreases n - i,
        {
            if crate::text::str_eq(self.entries[i].0.as_str(), uuid.as_str()) {
                proof {
                    lemma_find_at(self.entries@, uuid@, i as int);
                }
                return Option::Some(i);
            }
            i = i + 1;
        }
        proof {
            lemma_find_none(self.entries@, uuid@);
        }
        Option::None
    }

    /// Read the snapshot for `uuid` without touching the table.
    pub fn read(&self, uuid: &String) -> (r: Option<TaskProgress>)
        ensures
            r == self.spec_find(uuid@),
    {
        match self.find_index(uuid) {
            Option::Some(i) => Option::Some(self.entries[i].1),
            Option::None => Option::None,
        }
    }

    /// Drop the entry for `uuid`, if one is there: its job is gone, and
    /// every other job's snapshot is untouched.
    pub fn remove(&mut self, uuid: &String)
        requires
            old(self).wf(),
        ensures
            final(self).wf(),
            final(self).spec_find(uuid@) == Option::None::<TaskProgress>,
            forall|k: Seq<char>|
                k != uuid@ ==> final(self).spec_find(k) == old(self).spec_find(k),
    {
        match self.find_index(uuid) {
            Option::Some(i) => {
                proof {
                    lemma_wf_remove(self.entries@, i as int);
                    assert forall|k: Seq<char>| true implies tbl_find(
                        self.entries@.remove(i as int),
                        k,
                    ) == if self.entries@[i as int].0@ == k {
                        Option::None::<TaskProgress>
                    } else {
                        tbl_find(self.entries@, k)
                    } by {
                        lemma_find_remove(self.entries@, i as int, k);
                    }
                }
                self.entries.remove(i);
            },
            Option::None => {},
        }
    }

    /// Start tracking job `uuid` afresh: a snapshot of `total` tasks with
    /// nothing retired, replacing any earlier entry for the same id.
    pub fn new_progress(&mut self, uuid: &String, total: usize) -> (r: TaskProgress)
        requires
            old(self).wf(),
        ensures
            final(self).wf(),
            r.total == total && r.current == 0,
            final(self).spec_find(uuid@) == Option::Some(r),
            forall|k: Seq<char>|
                k != uuid@ ==> final(self).spec_find(k) == old(self).spec_find(k),
    {
        self.remove(uuid);
        let p = TaskProgress::new(total);
        let ghost pre = self.entries@;
        self.entries.push((uuid.clone(), p));
        proof {
            let e = self.entries@[self.entries@.len() - 1];
            assert(self.entries@ =~= pre.push(e));
            assert(e.0@ == uuid@);
            lemma_find_push(pre, e, uuid@);
            assert forall|k: Seq<char>| k != uuid@ implies tbl_find(pre.push(e), k) == tbl_find(
                pre,
                k,
            ) by {
                lemma_find_push(pre, e, k);
            }
            assert forall|a: int, b: int|
                0 <= a < b < self.entries@.len() implies self.entries@[a].0@
                != self.entries@[b].0@ by {
                if b == self.entries@.len() - 1 {
                    assert(tbl_find(pre, uuid@) == Option::None::<TaskProgress>);
                    if pre[a].0@ == uuid@ {
                        lemma_find_at(pre, uuid@, a);
                    }
                }
            }
        }
        p
    }

    /// Overwrite the snapshot for `uuid`, if its job is tracked; a job
    /// that is not tracked stays untracked.
    pub fn update_progress(&mut self, uuid: &String, p: TaskProgress)
        requires
            old(self).wf(),
        ensures
            final(self).wf(),
            final(self).spec_find(uuid@) == match old(self).spec_find(uuid@) {
                Option::Some(_) => Option::Some(p),
                Option::None => Option::None::<TaskProgress>,
            },
            forall|k: Seq<char>|
                k != uuid@ ==> final(self).spec_find(k) == old(self).spec_find(k),
    {
        match self.find_index(uuid) {
            Option::Some(_) => {
                self.remove(uuid);
                let ghost pre = self.entries@;
                self.entries.push((uuid.clone(), p));
                proof {
                    let e = self.entries@[self.entries@.len() - 1];
                    assert(self.entries@ =~= pre.push(e));
                    assert(e.0@ == uuid@);
                    lemma_find_push(pre, e, uuid@);
                    assert forall|k: Seq<char>| k != uuid@ implies tbl_find(pre.push(e), k)
                        == tbl_find(pre, k) by {
                        lemma_find_push(pre, e, k);
                    }
                    assert forall|a: int, b: int|
                        0 <= a < b < self.entries@.len() implies self.entries@[a].0@
                        != self.entries@[b].0@ by {
                        if b == self.entries@.len() - 1 {
                            if pre[a].0@ == uuid@ {
                                lemma_find_at(pre, uuid@, a);
                            }
                        }
                    }
                }
            },
            Option::None => {},
        }
    }

    /// The snapshot for `uuid`, created as a fresh one of `total` tasks
    /// if its job is not yet tracked.
    pub fn get_progress(&mut self, uuid: &String, total: usize) -> (r: TaskProgress)
        requires
            old(self).wf(),
        ensures
            final(self).wf(),
            match old(self).spec_find(uuid@) {
                Option::Some(p) => r == p && *final(self) == *old(self),
                Option::None => r.total == total && r.current == 0 && final(self).spec_find(
                    uuid@,
                ) == Option::Some(r),
            },
            forall|k: Seq<char>|
                k != uuid@ ==> final(self).spec_find(k) == old(self).spec_find(k),
    {
        match self.read(uuid) {
            Option::Some(p) => p,
            Option::None => self.new_progress(uuid, total),
        }
    }
}

} // verus!
