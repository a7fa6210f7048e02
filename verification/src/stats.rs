//! The in-memory frequency table for one calendar day.

use vstd::prelude::*;

verus! {

/// A character allowed in a key identifier: printable ASCII other than the
/// quote and the backslash, so that identifiers embed in the day file verbatim.
pub open spec fn key_char(c: char) -> bool {
    32 <= c as u32 && (c as u32) < 127 && c != '"' && c != '\\'
}

/// A key identifier made only of allowed characters.
pub open spec fn valid_key(k: Seq<char>) -> bool {
    forall|i: int| 0 <= i < k.len() ==> key_char(#[trigger] k[i])
}

/// A count bumped by one accepted press; the count sticks at the top of its
/// range rather than wrapping.
pub open spec fn incr(c: u32) -> u32 {
    if c == u32::MAX {
        c
    } else {
        (c + 1) as u32
    }
}

/// The count recorded for `k` in the pair sequence `m`; zero when absent.
pub open spec fn count_of(m: Seq<(Seq<char>, u32)>, k: Seq<char>) -> u32
    decreases m.len(),
{
    if m.len() == 0 {
        0
    } else if m[0].0 == k {
        m[0].1
    } else {
        count_of(m.drop_first(), k)
    }
}

/// Whether `m` records a count for `k`.
pub open spec fn has_key(m: Seq<(Seq<char>, u32)>, k: Seq<char>) -> bool {
    exists|i: int| 0 <= i < m.len() && m[i].0 == k
}

/// The table after one accepted press of `k`: the first entry for `k` is
/// bumped in place, or an entry with count 1 is appended when `k` is new.
pub open spec fn bump(m: Seq<(Seq<char>, u32)>, k: Seq<char>) -> Seq<(Seq<char>, u32)>
    decreases m.len(),
{
    if m.len() == 0 {
        seq![(k, 1u32)]
    } else if m[0].0 == k {
        seq![(m[0].0, incr(m[0].1))] + m.drop_first()
    } else {
        seq![m[0]] + bump(m.drop_first(), k)
    }
}

/// Bumping `k` raises the count for `k` by one (up to its range) and leaves
/// the count of every other identifier unchanged.
pub proof fn lemma_count_bump(m: Seq<(Seq<char>, u32)>, k: Seq<char>, k2: Seq<char>)
    ensures
        count_of(bump(m, k), k2) == if k2 == k {
            incr(count_of(m, k))
        } else {
            count_of(m, k2)
        },
    decreases m.len(),
{
    reveal_with_fuel(count_of, 2);
    if m.len() == 0 {
        assert(bump(m, k) == seq![(k, 1u32)]);
        assert(bump(m, k)[0] == (k, 1u32));
        assert(bump(m, k).drop_first() =~= Seq::<(Seq<char>, u32)>::empty());
    } else if m[0].0 == k {
        assert(bump(m, k)[0] == (m[0].0, incr(m[0].1)));
        assert(bump(m, k).drop_first() =~= m.drop_first());
    } else {
        lemma_count_bump(m.drop_first(), k, k2);
        assert(bump(m, k)[0] == m[0]);
        assert(bump(m, k).drop_first() =~= bump(m.drop_first(), k));
    }
}

/// One day's keystroke counts: key identifier -> count of accepted presses.
pub struct DayStats {
    pub keys: Vec<(String, u32)>,
}

/// The identifiers and counts held by a vector of entries.
pub open spec fn pairs_view(ks: Seq<(String, u32)>) -> Seq<(Seq<char>, u32)> {
    ks.map(|i: int, p: (String, u32)| (p.0@, p.1))
}

impl View for DayStats {
    type V = Seq<(Seq<char>, u32)>;

    open spec fn view(&self) -> Seq<(Seq<char>, u32)> {
        pairs_view(self.keys@)
    }
}

impl DayStats {
    /// Identifiers are pairwise distinct and made of allowed characters.
    pub open spec fn wf(&self) -> bool {
        &&& forall|i: int, j: int| 0 <= i < j < self@.len() ==> self@[i].0 != self@[j].0
        &&& forall|i: int| 0 <= i < self@.len() ==> valid_key(#[trigger] self@[i].0)
    }

    /// An empty table: no key has been pressed today.
    pub fn new() -> (d: DayStats)
        ensures
            d.wf(),
            d@ == Seq::<(Seq<char>, u32)>::empty(),
    {
        let d = DayStats { keys: Vec::new() };
        assert(d@ =~= Seq::<(Seq<char>, u32)>::empty());
        d
    }

    /// The count currently recorded for `k`; zero when `k` is absent.
    pub fn count(&self, k: &String) -> (c: u32)
        ensures
            c == count_of(self@, k@),
    {
        let mut i: usize = 0;
        assert(self@.skip(0) =~= self@);
        while i < self.keys.len()
            invariant
                i <= self.keys.len(),
                count_of(self@, k@) == count_of(self@.skip(i as int), k@),
            decreases self.keys.len() - i,
        {
            assert(self@.skip(i as int)[0] == self@[i as int]);
            assert(self@.skip(i as int).drop_first() =~= self@.skip(i + 1));
            if self.keys[i].0 == *k {
                return self.keys[i].1;
            }
            i += 1;
        }
        assert(self@.skip(i as int).len() == 0);
        0
    }

    /// Records one accepted press of `k`: bumps its count, creating the entry
    /// with count 1 when `k` is new.
    pub fn record_press(&mut self, k: &String)
        requires
            old(self).wf(),
            valid_key(k@),
        ensures
            final(self).wf(),
            final(self)@ == bump(old(self)@, k@),
    {
        let ghost m0 = self@;
        let mut i: usize = 0;
        while i < self.keys.len()
            invariant
                self == old(self),
                old(self).wf(),
                valid_key(k@),
                i <= self.keys.len(),
                forall|j: int| 0 <= j < i ==> m0[j].0 != k@,
                m0 == self@,
            decreases self.keys.len() - i,
        {
            if self.keys[i].0 == *k {
                let entry = self.keys.remove(i);
                let c = entry.1;
                let nc = if c == u32::MAX {
                    c
                } else {
                    c + 1
                };
                self.keys.insert(i, (entry.0, nc));
                proof {
                    assert(self@ =~= m0.update(i as int, (k@, incr(m0[i as int].1))));
                    lemma_bump_is_update(m0, k@, i as int);
                    assert(self@ == bump(m0, k@));
                    assert(forall|j: int|
                        0 <= j < self@.len() ==> #[trigger] self@[j].0 == m0[j].0);
                    assert forall|a: int, b: int| 0 <= a < b < self@.len() implies self@[a].0
                        != self@[b].0 by {
                        assert(m0[a].0 != m0[b].0);
                    }
                    assert forall|a: int| 0 <= a < self@.len() implies valid_key(
                        #[trigger] self@[a].0,
                    ) by {
                        assert(valid_key(m0[a].0));
                    }
                }
                return;
            }
            i += 1;
        }
        self.keys.push((k.clone(), 1));
        proof {
            assert(self@ =~= m0.push((k@, 1u32)));
            lemma_bump_is_push(m0, k@);
            assert(self@ == bump(m0, k@));
            assert forall|a: int, b: int| 0 <= a < b < self@.len() implies self@[a].0
                != self@[b].0 by {
                if b == self@.len() - 1 {
                    assert(m0[a].0 != k@);
                }
            }
        }
    }
}

/// When the first entry for `k` sits at index `i`, bumping rewrites exactly
/// that entry.
pub proof fn lemma_bump_is_update(m: Seq<(Seq<char>, u32)>, k: Seq<char>, i: int)
    requires
        0 <= i < m.len(),
        m[i].0 == k,
        forall|j: int| 0 <= j < i ==> m[j].0 != k,
    ensures
        bump(m, k) == m.update(i, (k, incr(m[i].1))),
    decreases i,
{
    if i == 0 {
        assert(bump(m, k) =~= m.update(0, (k, incr(m[0].1))));
    } else {
        lemma_bump_is_update(m.drop_first(), k, i - 1);
        assert(bump(m, k) =~= m.update(i, (k, incr(m[i].1))));
    }
}

/// When `k` is absent, bumping appends a fresh entry with count 1.
pub proof fn lemma_bump_is_push(m: Seq<(Seq<char>, u32)>, k: Seq<char>)
    requires
        forall|j: int| 0 <= j < m.len() ==> m[j].0 != k,
    ensures
        bump(m, k) == m.push((k, 1u32)),
    decreases m.len(),
{
    if m.len() == 0 {
        assert(bump(m, k) =~= m.push((k, 1u32)));
    } else {
        lemma_bump_is_push(m.drop_first(), k);
        assert(bump(m, k) =~= m.push((k, 1u32)));
    }
}

} // verus!
