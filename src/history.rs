//! Input history of the account prompt: most recent first, without
//! duplicates, bounded in length.

use std::collections::VecDeque;
use vstd::prelude::*;

verus! {

/// How many entries the account prompt remembers.
pub const HISTORY_LIMIT: usize = 25;

/// The history after `val` was written to `h`, with at most `max` entries.
pub open spec fn history_after_write(h: Seq<Seq<char>>, max: nat, val: Seq<char>) -> Seq<Seq<char>> {
    if h.contains(val) {
        h
    } else if h.len() == max {
        seq![val] + h.drop_last()
    } else {
        seq![val] + h
    }
}

pub struct AccountHistory {
    max: usize,
    history: VecDeque<String>,
}

impl AccountHistory {
    /// The remembered entries, most recent first.
    pub closed spec fn entries(&self) -> Seq<Seq<char>> {
        self.history@.map_values(|s: String| s@)
    }

    /// The bound on the number of entries.
    pub closed spec fn capacity(&self) -> nat {
        self.max as nat
    }

    pub closed spec fn wf(&self) -> bool {
        &&& self.max > 0
        &&& self.history@.len() <= self.max
    }

    /// The entry at `pos`, counting from the most recent one.
    pub fn read(&self, pos: usize) -> (r: Option<String>)
        ensures
            pos < self.entries().len() ==> (r matches Some(s) && s@ == self.entries()[pos as int]),
            pos >= self.entries().len() ==> r is None,
    {
        if pos < self.history.len() {
            Some(self.history[pos].clone())
        } else {
            None
        }
    }

    /// Remembers `val` as the most recent entry, unless it is remembered
    /// already; when full, the oldest entry is dropped.
    pub fn write(&mut self, val: &str)
        requires
            old(self).wf(),
        ensures
            final(self).wf(),
            final(self).capacity() == old(self).capacity(),
            final(self).entries() == history_after_write(
                old(self).entries(),
                old(self).capacity(),
                val@,
            ),
    {
        let ghost before = self.entries();
        let mut i: usize = 0;
        while i < self.history.len()
            invariant
                0 <= i <= self.history@.len(),
                self.entries() == before,
                self.wf(),
                self.max == old(self).max,
                forall|j: int| 0 <= j < i ==> before[j] != val@,
            decreases self.history@.len() - i,
        {
            if crate::text::str_equal(self.history[i].as_str(), val) {
                proof {
                    assert(before[i as int] == val@);
                    assert(before.contains(val@));
                }
                return;
            }
            i = i + 1;
        }
        assert(!before.contains(val@));
        if self.history.len() == self.max {
            self.history.pop_back();
            assert(self.entries() =~= before.drop_last());
        }
        self.history.push_front(String::from_str(val));
        assert(self.entries() =~= seq![val@] + history_after_write_base(before, self.max as nat));
    }
}

spec fn history_after_write_base(h: Seq<Seq<char>>, max: nat) -> Seq<Seq<char>> {
    if h.len() == max { h.drop_last() } else { h }
}

impl Default for AccountHistory {
    fn default() -> (r: AccountHistory)
        ensures
            r.wf(),
            r.entries() == Seq::<Seq<char>>::empty(),
            r.capacity() == HISTORY_LIMIT,
    {
        let r = AccountHistory { max: HISTORY_LIMIT, history: VecDeque::new() };
        assert(r.entries() =~= Seq::<Seq<char>>::empty());
        r
    }
}

} // verus!
