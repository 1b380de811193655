//! Per-event-group exposure: a map from event-group identifier to the
//! cumulative micro-USD committed to that group since the last daily reset,
//! kept as an association list with pairwise-distinct keys.

use vstd::prelude::*;

verus! {

/// Contribution of one entry to the exposure of group `g`.
pub open spec fn entry_contrib(e: (String, u64), g: Seq<char>) -> int {
    if e.0@ == g {
        e.1 as int
    } else {
        0
    }
}

/// Total committed to group `g` across the entries.
pub open spec fn group_total(entries: Seq<(String, u64)>, g: Seq<char>) -> int
    decreases entries.len(),
{
    if entries.len() == 0 {
        0
    } else {
        group_total(entries.drop_last(), g) + entry_contrib(entries.last(), g)
    }
}

/// No two entries name the same group.
pub open spec fn unique_keys(entries: Seq<(String, u64)>) -> bool {
    forall|i: int, j: int|
        0 <= i < j < entries.len() ==> entries[i].0@ != entries[j].0@
}

/// Appending an entry adds exactly its contribution.
proof fn lemma_group_total_push(entries: Seq<(String, u64)>, x: (String, u64), g: Seq<char>)
    ensures
        group_total(entries.push(x), g) == group_total(entries, g) + entry_contrib(x, g),
{
    assert(entries.push(x).drop_last() =~= entries);
    assert(entries.push(x).last() == x);
}

/// Entries that never name `g` contribute nothing.
proof fn lemma_group_total_absent(entries: Seq<(String, u64)>, g: Seq<char>)
    requires
        forall|j: int| 0 <= j < entries.len() ==> entries[j].0@ != g,
    ensures
        group_total(entries, g) == 0,
    decreases entries.len(),
{
    if entries.len() > 0 {
        lemma_group_total_absent(entries.drop_last(), g);
    }
}

/// With distinct keys, the group total of a present key is that entry's value.
proof fn lemma_group_total_found(entries: Seq<(String, u64)>, g: Seq<char>, i: int)
    requires
        unique_keys(entries),
        0 <= i < entries.len(),
        entries[i].0@ == g,
    ensures
        group_total(entries, g) == entries[i].1 as int,
    decreases entries.len(),
{
    if i == entries.len() - 1 {
        lemma_group_total_absent(entries.drop_last(), g);
    } else {
        lemma_group_total_found(entries.drop_last(), g, i);
    }
}

/// Replacing the value of one entry shifts each group total by the
/// difference of the two contributions, provided the key's view is kept.
proof fn lemma_group_total_update(
    entries: Seq<(String, u64)>,
    i: int,
    x: (String, u64),
    g: Seq<char>,
)
    requires
        0 <= i < entries.len(),
        x.0@ == entries[i].0@,
    ensures
        group_total(entries.update(i, x), g) == group_total(entries, g) - entry_contrib(
            entries[i],
            g,
        ) + entry_contrib(x, g),
    decreases entries.len(),
{
    let updated = entries.update(i, x);
    if i == entries.len() - 1 {
        assert(updated.drop_last() =~= entries.drop_last());
        assert(updated.last() == x);
    } else {
        assert(updated.drop_last() =~= entries.drop_last().update(i, x));
        assert(updated.last() == entries.last());
        lemma_group_total_update(entries.drop_last(), i, x, g);
    }
}

/// Cumulative micro-USD committed per event group since the last reset.
pub struct ExposureMap {
    entries: Vec<(String, u64)>,
}

impl ExposureMap {
    /// Pairwise-distinct group keys.
    pub closed spec fn wf(&self) -> bool {
        unique_keys(self.entries@)
    }

    /// The exposure recorded for group `g`; 0 for a group never recorded.
    pub closed spec fn total_of(&self, g: Seq<char>) -> int {
        group_total(self.entries@, g)
    }

    /// An empty map: every group's exposure is 0.
    pub fn new() -> (m: Self)
        ensures
            m.wf(),
            forall|g: Seq<char>| m.total_of(g) == 0,
    {
        let m = ExposureMap { entries: Vec::new() };
        proof {
            assert forall|g: Seq<char>| m.total_of(g) == 0 by {
                assert(m.entries@.len() == 0);
            }
        }
        m
    }

    /// Current exposure of `group`, in micro-USD.
    pub fn total_for(&self, group: &str) -> (t: u64)
        requires
            self.wf(),
        ensures
            t == self.total_of(group@),
    {
        let key = group.to_owned();
        let n = self.entries.len();
        for i in 0..n
            invariant
                n == self.entries.len(),
                key@ == group@,
                self.wf(),
                forall|j: int| 0 <= j < i ==> self.entries@[j].0@ != group@,
        {
            if self.entries[i].0 == key {
                proof {
                    lemma_group_total_found(self.entries@, group@, i as int);
                }
                return self.entries[i].1;
            }
        }
        proof {
            lemma_group_total_absent(self.entries@, group@);
        }
        0
    }

    /// Add `amount` to the exposure of `group`, leaving every other group
    /// untouched.
    pub fn add(&mut self, group: &str, amount: u64)
        requires
            old(self).wf(),
            old(self).total_of(group@) + amount <= u64::MAX,
        ensures
            final(self).wf(),
            final(self).total_of(group@) == old(self).total_of(group@) + amount,
            forall|g: Seq<char>|
                g != group@ ==> final(self).total_of(g) == old(self).total_of(g),
    {
        let key = group.to_owned();
        let n = self.entries.len();
        for i in 0..n
            invariant
                n == self.entries.len(),
                key@ == group@,
                self.wf(),
                self.entries@ == old(self).entries@,
                old(self).total_of(group@) + amount <= u64::MAX,
                forall|j: int| 0 <= j < i ==> self.entries@[j].0@ != group@,
        {
            if self.entries[i].0 == key {
                proof {
                    lemma_group_total_found(self.entries@, group@, i as int);
                }
                let updated = self.entries[i].1 + amount;
                self.entries[i] = (key, updated);
                proof {
                    assert(self.entries@ == old(self).entries@.update(
                        i as int,
                        self.entries@[i as int],
                    ));
                    assert forall|g: Seq<char>|
                        self.total_of(g) == old(self).total_of(g) + (if g == group@ {
                            amount as int
                        } else {
                            0
                        }) by {
                        lemma_group_total_update(
                            old(self).entries@,
                            i as int,
                            self.entries@[i as int],
                            g,
                        );
                    }
                }
                return ;
            }
        }
        proof {
            lemma_group_total_absent(self.entries@, group@);
        }
        let ghost before = self.entries@;
        self.entries.push((key, amount));
        proof {
            assert(self.entries@ == before.push(self.entries@.last()));
            assert forall|g: Seq<char>|
                self.total_of(g) == old(self).total_of(g) + (if g == group@ {
                    amount as int
                } else {
                    0
                }) by {
                lemma_group_total_push(before, self.entries@.last(), g);
            }
        }
    }

    /// Forget every group: all exposure returns to 0.
    pub fn clear(&mut self)
        ensures
            final(self).wf(),
            forall|g: Seq<char>| final(self).total_of(g) == 0,
    {
        self.entries.clear();
        proof {
            assert forall|g: Seq<char>| self.total_of(g) == 0 by {
                assert(self.entries@.len() == 0);
            }
        }
    }
}

} // verus!
