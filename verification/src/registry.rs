//! The job registry: the single source of truth for which job ids have a
//! live run. At most one active run per id; an id is registered when its
//! pipeline is spawned and removed when the job completes, is paused, or
//! is superseded.

use vstd::prelude::*;

verus! {

/// Some registered id reads `k`.
pub open spec fn reg_has(s: Seq<String>, k: Seq<char>) -> bool {
    exists|i: int| 0 <= i < s.len() && s[i]@ == k
}

/// No id is registered twice.
pub open spec fn reg_wf(s: Seq<String>) -> bool {
    forall|i: int, j: int| 0 <= i < j < s.len() ==> s[i]@ != s[j]@
}

/// The set of job ids with a live run.
pub struct JobRegistry {
    pub ids: Vec<String>,
}

impl JobRegistry {
    /// Ids are unique.
    pub open spec fn wf(self) -> bool {
        reg_wf(self.ids@)
    }

    /// Whether the job id `k` has a live run.
    pub open spec fn spec_has(self, k: Seq<char>) -> bool {
        reg_has(self.ids@, k)
    }

    /// An empty registry: no job is running.
    pub fn new() -> (r: JobRegistry)
        ensures
            r.wf(),
            forall|k: Seq<char>| !r.spec_has(k),
    {
        JobRegistry { ids: Vec::new() }
    }

    /// Whether `uuid` has a live run.
    pub fn contains(&self, uuid: &String) -> (r: bool)
        ensures
            r == self.spec_has(uuid@),
    {
        let n = self.ids.len();
        let mut i: usize = 0;
        while i < n
            invariant
                n == self.ids@.len(),
                i <= n,
                forall|j: int| 0 <= j < i ==> self.ids@[j]@ != uuid@,
            decreases n - i,
        {
            if crate::text::str_eq(self.ids[i].as_str(), uuid.as_str()) {
                return true;
            }
            i = i + 1;
        }
        false
    }

    /// Register a live run for `uuid`, which must not have one.
    pub fn insert(&mut self, uuid: &String)
        requires
            old(self).wf(),
            !old(self).spec_has(uuid@),
        ensures
            final(self).wf(),
            final(self).spec_has(uuid@),
            forall|k: Seq<char>| k != uuid@ ==> final(self).spec_has(k) == old(self).spec_has(k),
    {
        let ghost pre = self.ids@;
        self.ids.push(uuid.clone());
        proof {
            let n = self.ids@.len() - 1;
            assert(self.ids@[n]@ == uuid@);
            assert forall|k: Seq<char>| k != uuid@ implies reg_has(self.ids@, k) == reg_has(
                pre,
                k,
            ) by {
                if reg_has(pre, k) {
                    let i = choose|i: int| 0 <= i < pre.len() && pre[i]@ == k;
                    assert(self.ids@[i]@ == k);
                }
                if reg_has(self.ids@, k) {
                    let i = choose|i: int| 0 <= i < self.ids@.len() && self.ids@[i]@ == k;
                    assert(i < n ==> pre[i]@ == k);
                }
            }
            assert forall|a: int, b: int|
                0 <= a < b < self.ids@.len() implies self.ids@[a]@ != self.ids@[b]@ by {
                if b == n && pre[a]@ == uuid@ {
                    assert(reg_has(pre, uuid@));
                }
            }
        }
    }

    /// Drop the live run for `uuid`, if one is registered; every other
    /// id's registration is untouched.
    pub fn remove(&mut self, uuid: &String)
        requires
            old(self).wf(),
        ensures
            final(self).wf(),
            !final(self).spec_has(uuid@),
            forall|k: Seq<char>| k != uuid@ ==> final(self).spec_has(k) == old(self).spec_has(k),
    {
        let n = self.ids.len();
        let mut i: usize = 0;
        while i < n
            invariant
                n == self.ids@.len(),
                i <= n,
                reg_wf(self.ids@),
                self.ids@ == old(self).ids@,
                forall|j: int| 0 <= j < i ==> self.ids@[j]@ != uuid@,
            decreases n - i,
        {
            if crate::text::str_eq(self.ids[i].as_str(), uuid.as_str()) {
                let ghost pre = self.ids@;
                self.ids.remove(i);
                proof {
                    assert forall|k: Seq<char>| k != uuid@ implies reg_has(self.ids@, k)
                        == reg_has(pre, k) by {
                        if reg_has(pre, k) {
                            let a = choose|a: int| 0 <= a < pre.len() && pre[a]@ == k;
                            if a < i {
                                assert(self.ids@[a]@ == k);
                            } else {
                                assert(self.ids@[a - 1]@ == k);
                            }
                        }
                        if reg_has(self.ids@, k) {
                            let a = choose|a: int|
                                0 <= a < self.ids@.len() && self.ids@[a]@ == k;
                            if a < i {
                                assert(pre[a]@ == k);
                            } else {
                                assert(pre[a + 1]@ == k);
                            }
                        }
                    }
                    assert(!reg_has(self.ids@, uuid@)) by {
                        if reg_has(self.ids@, uuid@) {
                            let a = choose|a: int|
                                0 <= a < self.ids@.len() && self.ids@[a]@ == uuid@;
                            if a < i {
                                assert(pre[a]@ == uuid@);
                            } else {
                                assert(pre[a + 1]@ == uuid@);
                            }
                        }
                    }
                    assert forall|a: int, b: int|
                        0 <= a < b < self.ids@.len() implies self.ids@[a]@ != self.ids@[b]@ by {
                        let a0: int = if a < i {
                            a
                        } else {
                            a + 1
                        };
                        let b0: int = if b < i {
                            b
                        } else {
                            b + 1
                        };
                        assert(self.ids@[a] == pre[a0]);
                        assert(self.ids@[b] == pre[b0]);
                    }
                }
                return ;
            }
            i = i + 1;
        }
        proof {
            assert(!reg_has(self.ids@, uuid@)) by {
                if reg_has(self.ids@, uuid@) {
                    let a = choose|a: int| 0 <= a < self.ids@.len() && self.ids@[a]@ == uuid@;
                }
            }
        }
    }
}

} // verus!
