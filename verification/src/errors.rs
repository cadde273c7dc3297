//! The error log: failures scoped to a single task or job accumulate
//! here and are surfaced to the caller on request; nothing in it is fatal
//! to the process.

use vstd::prelude::*;

verus! {

/// Recorded failure messages, oldest first.
pub struct ErrorLog {
    pub entries: Vec<String>,
}

impl ErrorLog {
    /// An empty log.
    pub fn new() -> (r: ErrorLog)
        ensures
            r.entries@.len() == 0,
    {
        ErrorLog { entries: Vec::new() }
    }

    /// Append one failure message.
    pub fn record(&mut self, err: String)
        ensures
            final(self).entries@ == old(self).entries@.push(err),
    {
        self.entries.push(err);
    }

    /// A copy of every recorded message, oldest first.
    pub fn get_errors(&self) -> (r: Vec<String>)
        ensures
            r@ == self.entries@,
    {
        let n = self.entries.len();
        let mut r: Vec<String> = Vec::new();
        let mut i: usize = 0;
        while i < n
            invariant
                n == self.entries@.len(),
                i <= n,
                r@ =~= self.entries@.subrange(0, i as int),
            decreases n - i,
        {
            r.push(self.entries[i].clone());
            proof {
                assert(r@ =~= self.entries@.subrange(0, i + 1 as int));
            }
            i = i + 1;
        }
        proof {
            assert(self.entries@.subrange(0, n as int) =~= self.entries@);
        }
        r
    }

    /// Take the newest message out of the log; an empty log answers the
    /// empty string and stays empty.
    pub fn pop_error(&mut self) -> (r: String)
        ensures
            old(self).entries@.len() > 0 ==> final(self).entries@ == old(
                self,
            ).entries@.drop_last() && r == old(self).entries@.last(),
            old(self).entries@.len() == 0 ==> final(self).entries@ == old(self).entries@ && r@
                == Seq::<char>::empty(),
    {
        match self.entries.pop() {
            Option::Some(e) => e,
            Option::None => String::new(),
        }
    }

    /// Forget every recorded message.
    pub fn clear_errors(&mut self)
        ensures
            final(self).entries@.len() == 0,
    {
        self.entries.clear();
    }
}

} // verus!
