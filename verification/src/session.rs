//! The event pipeline: deduplicating key-repeat presses, counting accepted
//! presses, and handing back the day file to persist after each one.

use vstd::prelude::*;
use crate::keys::{Key, key_id, key_to_string, lemma_key_id_valid};
use crate::stats::{DayStats, bump, count_of, incr, valid_key, lemma_count_bump};
use crate::codec::{json_of, encode_stats};

verus! {

/// One notification from the keyboard hook; anything that is neither a key
/// press nor a key release is ignored entirely.
#[derive(Clone, Copy)]
pub enum KeyEvent {
    Press(Key),
    Release(Key),
    Other,
}

/// Whether the identifier `k` is among the held identifiers `p`.
pub open spec fn in_pressed(p: Seq<Seq<char>>, k: Seq<char>) -> bool {
    exists|i: int| 0 <= i < p.len() && p[i] == k
}

/// `p` without its first occurrence of `k`; `p` itself when `k` is absent.
pub open spec fn remove_key(p: Seq<Seq<char>>, k: Seq<char>) -> Seq<Seq<char>>
    decreases p.len(),
{
    if p.len() == 0 {
        p
    } else if p[0] == k {
        p.drop_first()
    } else {
        seq![p[0]] + remove_key(p.drop_first(), k)
    }
}

/// When the first occurrence of `k` sits at index `i`, removing `k` removes
/// exactly that element.
pub proof fn lemma_remove_key_first(p: Seq<Seq<char>>, k: Seq<char>, i: int)
    requires
        0 <= i < p.len(),
        p[i] == k,
        forall|j: int| 0 <= j < i ==> p[j] != k,
    ensures
        remove_key(p, k) == p.remove(i),
    decreases i,
{
    if i == 0 {
        assert(remove_key(p, k) =~= p.remove(0));
    } else {
        lemma_remove_key_first(p.drop_first(), k, i - 1);
        assert(remove_key(p, k) =~= p.remove(i));
    }
}

/// Removing an absent identifier changes nothing.
pub proof fn lemma_remove_key_absent(p: Seq<Seq<char>>, k: Seq<char>)
    requires
        !in_pressed(p, k),
    ensures
        remove_key(p, k) == p,
    decreases p.len(),
{
    if p.len() > 0 {
        assert(p[0] != k);
        assert(forall|j: int| 0 <= j < p.drop_first().len() ==> p.drop_first()[j] == p[j + 1]);
        if in_pressed(p.drop_first(), k) {
            let j = choose|j: int|
                0 <= j < p.drop_first().len() && p.drop_first()[j] == k;
            assert(p[j + 1] == k);
        }
        lemma_remove_key_absent(p.drop_first(), k);
        assert(remove_key(p, k) =~= p);
    }
}

/// One step of the pipeline: what the held set and the counts become on one
/// event, and whether the event was an accepted press.
pub open spec fn step(p: Seq<Seq<char>>, m: Seq<(Seq<char>, u32)>, ev: KeyEvent) -> (
    Seq<Seq<char>>,
    Seq<(Seq<char>, u32)>,
    bool,
) {
    match ev {
        KeyEvent::Press(key) => {
            let k = key_id(key);
            if in_pressed(p, k) {
                (p, m, false)
            } else {
                (p.push(k), bump(m, k), true)
            }
        },
        KeyEvent::Release(key) => (remove_key(p, key_id(key)), m, false),
        KeyEvent::Other => (p, m, false),
    }
}

/// The held set and the counts after a whole sequence of events.
pub open spec fn run(p: Seq<Seq<char>>, m: Seq<(Seq<char>, u32)>, evs: Seq<KeyEvent>) -> (
    Seq<Seq<char>>,
    Seq<(Seq<char>, u32)>,
)
    decreases evs.len(),
{
    if evs.len() == 0 {
        (p, m)
    } else {
        let s1 = step(p, m, evs[0]);
        run(s1.0, s1.1, evs.drop_first())
    }
}

/// The running session: the keys currently held down and today's counts.
pub struct Session {
    pub pressed: Vec<String>,
    pub stats: DayStats,
}

impl Session {
    /// The held identifiers.
    pub open spec fn pressed_view(&self) -> Seq<Seq<char>> {
        self.pressed@.map(|i: int, s: String| s@)
    }

    pub open spec fn wf(&self) -> bool {
        self.stats.wf()
    }

    /// A fresh session over the given counts: nothing held down yet.
    pub fn new(stats: DayStats) -> (s: Session)
        requires
            stats.wf(),
        ensures
            s.wf(),
            s.pressed_view() == Seq::<Seq<char>>::empty(),
            s.stats@ == stats@,
    {
        let s = Session { pressed: Vec::new(), stats };
        assert(s.pressed_view() =~= Seq::<Seq<char>>::empty());
        s
    }

    /// Whether `k` is currently held down.
    fn contains_key(&self, k: &String) -> (r: bool)
        ensures
            r == in_pressed(self.pressed_view(), k@),
    {
        let mut i: usize = 0;
        while i < self.pressed.len()
            invariant
                i <= self.pressed.len(),
                forall|j: int| 0 <= j < i ==> self.pressed_view()[j] != k@,
            decreases self.pressed.len() - i,
        {
            if self.pressed[i] == *k {
                assert(self.pressed_view()[i as int] == k@);
                return true;
            }
            i += 1;
        }
        proof {
            if in_pressed(self.pressed_view(), k@) {
                let j = choose|j: int|
                    0 <= j < self.pressed_view().len() && self.pressed_view()[j] == k@;
                assert(self.pressed_view()[j] != k@);
            }
        }
        false
    }

    /// Drops `k` from the held set; a no-op when `k` is not held.
    fn remove_pressed(&mut self, k: &String)
        ensures
            final(self).pressed_view() == remove_key(old(self).pressed_view(), k@),
            final(self).stats == old(self).stats,
    {
        let ghost p0 = self.pressed_view();
        let mut i: usize = 0;
        while i < self.pressed.len()
            invariant
                self == old(self),
                p0 == self.pressed_view(),
                i <= self.pressed.len(),
                forall|j: int| 0 <= j < i ==> p0[j] != k@,
            decreases self.pressed.len() - i,
        {
            if self.pressed[i] == *k {
                assert(p0[i as int] == k@);
                self.pressed.remove(i);
                proof {
                    lemma_remove_key_first(p0, k@, i as int);
                    assert(self.pressed_view() =~= p0.remove(i as int));
                }
                return;
            }
            i += 1;
        }
        proof {
            if in_pressed(p0, k@) {
                let j = choose|j: int| 0 <= j < p0.len() && p0[j] == k@;
                assert(p0[j] != k@);
            }
            lemma_remove_key_absent(p0, k@);
        }
    }

    /// Handles one hook notification. A press of a key not yet held is
    /// accepted: the key joins the held set, its count is bumped, and the
    /// whole day file to persist is handed back. A repeat press of a held key
    /// changes nothing. A release only drops the key from the held set, and
    /// any other notification is ignored.
    pub fn handle_event(&mut self, ev: &KeyEvent) -> (r: Option<Vec<u8>>)
        requires
            old(self).wf(),
        ensures
            final(self).wf(),
            final(self).pressed_view() == step(
                old(self).pressed_view(),
                old(self).stats@,
                *ev,
            ).0,
            final(self).stats@ == step(old(self).pressed_view(), old(self).stats@, *ev).1,
            (r is Some) == step(old(self).pressed_view(), old(self).stats@, *ev).2,
            r matches Some(v) ==> v@ == json_of(final(self).stats@),
    {
        match ev {
            KeyEvent::Press(key) => {
                let ks = key_to_string(*key);
                proof {
                    lemma_key_id_valid(*key);
                }
                if self.contains_key(&ks) {
                    None
                } else {
                    let ghost p0 = self.pressed_view();
                    self.pressed.push(ks.clone());
                    assert(self.pressed_view() =~= p0.push(ks@));
                    self.stats.record_press(&ks);
                    let out = encode_stats(&self.stats);
                    Some(out)
                }
            },
            KeyEvent::Release(key) => {
                let ks = key_to_string(*key);
                self.remove_pressed(&ks);
                None
            },
            KeyEvent::Other => None,
        }
    }
}

/// A press of a key already held changes nothing and is not counted.
pub proof fn lemma_repeat_press_ignored(
    p: Seq<Seq<char>>,
    m: Seq<(Seq<char>, u32)>,
    key: Key,
)
    requires
        in_pressed(p, key_id(key)),
    ensures
        step(p, m, KeyEvent::Press(key)) == (p, m, false),
{
}

/// A run of presses of a held key, with no release, changes nothing.
proof fn lemma_held_press_run(
    p: Seq<Seq<char>>,
    m: Seq<(Seq<char>, u32)>,
    key: Key,
    evs: Seq<KeyEvent>,
)
    requires
        in_pressed(p, key_id(key)),
        forall|i: int| 0 <= i < evs.len() ==> evs[i] == KeyEvent::Press(key),
    ensures
        run(p, m, evs) == (p, m),
    decreases evs.len(),
{
    if evs.len() > 0 {
        assert(evs[0] == KeyEvent::Press(key));
        assert(forall|i: int|
            0 <= i < evs.drop_first().len() ==> evs.drop_first()[i] == evs[i + 1]);
        lemma_held_press_run(p, m, key, evs.drop_first());
    }
}

/// For any sequence of presses of one key with no intervening release, only
/// the first press bumps the count; the later presses change nothing.
pub proof fn lemma_press_run_counts_once(
    p: Seq<Seq<char>>,
    m: Seq<(Seq<char>, u32)>,
    key: Key,
    evs: Seq<KeyEvent>,
)
    requires
        evs.len() >= 1,
        forall|i: int| 0 <= i < evs.len() ==> evs[i] == KeyEvent::Press(key),
        !in_pressed(p, key_id(key)),
    ensures
        run(p, m, evs).1 == bump(m, key_id(key)),
        count_of(run(p, m, evs).1, key_id(key)) == incr(count_of(m, key_id(key))),
{
    let k = key_id(key);
    assert(evs[0] == KeyEvent::Press(key));
    let s1 = step(p, m, evs[0]);
    assert(s1 == (p.push(k), bump(m, k), true));
    assert(in_pressed(p.push(k), k)) by {
        assert(p.push(k)[p.len() as int] == k);
    }
    assert(forall|i: int|
        0 <= i < evs.drop_first().len() ==> evs.drop_first()[i] == evs[i + 1]);
    lemma_held_press_run(p.push(k), bump(m, k), key, evs.drop_first());
    lemma_count_bump(m, k, k);
}

/// Press, release, press of one key bumps its count exactly twice.
pub proof fn lemma_press_release_press(
    p: Seq<Seq<char>>,
    m: Seq<(Seq<char>, u32)>,
    key: Key,
)
    requires
        !in_pressed(p, key_id(key)),
    ensures
        count_of(
            run(
                p,
                m,
                seq![
                    KeyEvent::Press(key),
                    KeyEvent::Release(key),
                    KeyEvent::Press(key),
                ],
            ).1,
            key_id(key),
        ) == incr(incr(count_of(m, key_id(key)))),
{
    let k = key_id(key);
    let evs = seq![KeyEvent::Press(key), KeyEvent::Release(key), KeyEvent::Press(key)];
    let s1 = step(p, m, evs[0]);
    assert(s1 == (p.push(k), bump(m, k), true));
    assert(p.push(k)[p.len() as int] == k);
    assert(forall|j: int| 0 <= j < p.len() ==> p.push(k)[j] == p[j]);
    lemma_remove_key_first(p.push(k), k, p.len() as int);
    assert(p.push(k).remove(p.len() as int) =~= p);
    let evs1 = evs.drop_first();
    assert(evs1[0] == KeyEvent::Release(key));
    let s2 = step(s1.0, s1.1, evs1[0]);
    assert(s2.0 == p && s2.1 == bump(m, k));
    let evs2 = evs1.drop_first();
    assert(evs2[0] == KeyEvent::Press(key));
    let s3 = step(s2.0, s2.1, evs2[0]);
    assert(s3.1 == bump(bump(m, k), k));
    let evs3 = evs2.drop_first();
    assert(evs3.len() == 0);
    assert(run(p, m, evs) == run(s1.0, s1.1, evs1));
    assert(run(s1.0, s1.1, evs1) == run(s2.0, s2.1, evs2));
    assert(run(s2.0, s2.1, evs2) == run(s3.0, s3.1, evs3));
    assert(run(s3.0, s3.1, evs3) == (s3.0, s3.1));
    lemma_count_bump(m, k, k);
    lemma_count_bump(bump(m, k), k, k);
}

} // verus!
