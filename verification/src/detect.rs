//! The bookkeeping around the pitch detector: cutting the sample stream into detection windows,
//! the short history of recent readings that the median smooths over, and the grace hold that
//! keeps a note up through a brief dropout and lets go after the configured silence.

use vstd::prelude::*;

verus! {

/// How many recent readings the median looks at.
pub const HISTORY_LEN: usize = 5;

/// The fewest silent windows before a held note is let go, however short the sustain.
pub const MIN_HOLD_WINDOWS: u32 = 3;

/// Cuts the first `n` samples off `buf` when it holds at least that many: the window comes back
/// and `buf` keeps the rest; otherwise `buf` is left alone and nothing comes back.
pub fn take_window<T: Copy>(buf: &mut Vec<T>, n: usize) -> (window: Option<Vec<T>>)
    ensures
        match window {
            Some(w) => {
                &&& old(buf)@.len() >= n
                &&& w@ == old(buf)@.take(n as int)
                &&& final(buf)@ == old(buf)@.skip(n as int)
            },
            None => {
                &&& old(buf)@.len() < n
                &&& final(buf)@ == old(buf)@
            },
        },
{
    if buf.len() < n {
        return None;
    }
    let mut window: Vec<T> = Vec::new();
    let mut rest: Vec<T> = Vec::new();
    let mut i: usize = 0;
    while i < buf.len()
        invariant
            n <= buf@.len(),
            i <= buf@.len(),
            i <= n ==> window@ == buf@.take(i as int) && rest@.len() == 0,
            i > n ==> window@ == buf@.take(n as int) && rest@ == buf@.subrange(n as int, i as int),
        decreases buf@.len() - i,
    {
        let x = buf[i];
        if i < n {
            window.push(x);
            proof {
                assert(buf@.take(i as int).push(x) =~= buf@.take(i + 1));
            }
        } else {
            rest.push(x);
            proof {
                if i == n {
                    assert(rest@ =~= buf@.subrange(n as int, i + 1));
                } else {
                    assert(buf@.subrange(n as int, i as int).push(x) =~= buf@.subrange(
                        n as int,
                        i + 1,
                    ));
                }
            }
        }
        i = i + 1;
    }
    proof {
        if buf@.len() == n {
            assert(rest@ =~= buf@.skip(n as int));
        } else {
            assert(rest@ =~= buf@.skip(n as int));
        }
    }
    *buf = rest;
    Some(window)
}

/// The last few readings, oldest first.
pub struct Recent<T> {
    values: Vec<T>,
}

/// The newest `HISTORY_LEN` entries of `s`, oldest first.
pub open spec fn newest<T>(s: Seq<T>) -> Seq<T> {
    if s.len() > HISTORY_LEN {
        s.skip(s.len() - HISTORY_LEN)
    } else {
        s
    }
}

impl<T> View for Recent<T> {
    type V = Seq<T>;

    closed spec fn view(&self) -> Seq<T> {
        self.values@
    }
}

impl<T> Recent<T> {
    /// An empty history.
    pub fn new() -> (r: Self)
        ensures
            r@ == Seq::<T>::empty(),
    {
        Recent { values: Vec::new() }
    }

    /// Records a reading, dropping the oldest once more than `HISTORY_LEN` are kept.
    pub fn push(&mut self, x: T)
        ensures
            final(self)@ == if old(self)@.len() + 1 > HISTORY_LEN {
                old(self)@.push(x).drop_first()
            } else {
                old(self)@.push(x)
            },
    {
        self.values.push(x);
        if self.values.len() > HISTORY_LEN {
            self.values.remove(0);
        }
    }

    /// Forgets every reading.
    pub fn clear(&mut self)
        ensures
            final(self)@ == Seq::<T>::empty(),
    {
        self.values.clear();
    }

    /// The readings, oldest first.
    pub fn values(&self) -> (v: &[T])
        ensures
            v@ == self@,
    {
        self.values.as_slice()
    }

    /// How many readings are kept.
    pub fn len(&self) -> (n: usize)
        ensures
            n == self@.len(),
    {
        self.values.len()
    }
}

/// The history never holds more than `HISTORY_LEN` readings, and it holds the newest ones: after
/// a reading is pushed onto a history of the newest readings of `s`, it holds the newest
/// readings of `s` followed by that reading.
pub proof fn lemma_recent_keeps_newest<T>(s: Seq<T>, x: T)
    ensures
        newest(s).len() <= HISTORY_LEN,
        (if newest(s).len() + 1 > HISTORY_LEN {
            newest(s).push(x).drop_first()
        } else {
            newest(s).push(x)
        }) == newest(s.push(x)),
{
    let t = s.push(x);
    if s.len() >= HISTORY_LEN {
        assert(newest(s).push(x).drop_first() =~= t.skip(t.len() - HISTORY_LEN));
    } else {
        assert(newest(s).push(x) =~= newest(t));
    }
}

/// Counts the detection windows in a row in which nothing was heard.
pub struct GraceHold {
    /// Consecutive silent windows since a note was last heard.
    pub silent_windows: u32,
}

/// How many silent windows a hold of `hold_windows` waits: never fewer than the minimum.
pub open spec fn hold_length(hold_windows: u32) -> u32 {
    if hold_windows < MIN_HOLD_WINDOWS {
        MIN_HOLD_WINDOWS
    } else {
        hold_windows
    }
}

impl GraceHold {
    /// A hold with nothing missed yet.
    pub fn new() -> (g: Self)
        ensures
            g.silent_windows == 0,
    {
        GraceHold { silent_windows: 0 }
    }

    /// A window in which a note was heard: the count starts over.
    pub fn heard(&mut self)
        ensures
            final(self).silent_windows == 0,
    {
        self.silent_windows = 0;
    }

    /// A window in which nothing was heard. Returns whether the held note is now let go: once
    /// the silent windows reach the hold (at least `MIN_HOLD_WINDOWS`). The count stops at
    /// `u32::MAX`.
    pub fn missed(&mut self, hold_windows: u32) -> (release: bool)
        ensures
            final(self).silent_windows == missed_step(old(self).silent_windows),
            release == (final(self).silent_windows >= hold_length(hold_windows)),
            release == (final(self).silent_windows >= hold_windows
                && final(self).silent_windows >= MIN_HOLD_WINDOWS),
    {
        self.silent_windows = self.silent_windows.saturating_add(1);
        let hold = if hold_windows < MIN_HOLD_WINDOWS {
            MIN_HOLD_WINDOWS
        } else {
            hold_windows
        };
        self.silent_windows >= hold
    }
}

/// The silent-window count after one more silent window.
pub open spec fn missed_step(silent: u32) -> u32 {
    if silent == u32::MAX {
        u32::MAX
    } else {
        (silent + 1) as u32
    }
}

/// The silent-window count after `k` more silent windows in a row.
pub open spec fn after_misses(silent: u32, k: nat) -> u32
    decreases k,
{
    if k == 0 {
        silent
    } else {
        missed_step(after_misses(silent, (k - 1) as nat))
    }
}

/// After a note is heard, `k` silent windows in a row let it go exactly when `k` reaches the
/// hold, which is never fewer than `MIN_HOLD_WINDOWS`: a dropout shorter than the hold keeps the
/// note, and a longer silence always ends it.
pub proof fn lemma_hold_releases_after_silence(k: nat, hold_windows: u32)
    ensures
        after_misses(0, k) == if k > u32::MAX { u32::MAX as int } else { k as int },
        (after_misses(0, k) >= hold_length(hold_windows)) <==> k >= hold_length(hold_windows),
        hold_length(hold_windows) >= MIN_HOLD_WINDOWS,
    decreases k,
{
    if k > 0 {
        lemma_hold_releases_after_silence((k - 1) as nat, hold_windows);
    }
}


/// The hold waits exactly the configured number of silent windows, but never fewer than
/// `MIN_HOLD_WINDOWS`: a longer sustain never lets a note go sooner, and every sustain of at
/// least the minimum is honoured to the window.
pub proof fn lemma_hold_length(h: u32, g: u32, k: u32)
    ensures
        hold_length(h) >= h,
        hold_length(h) >= MIN_HOLD_WINDOWS,
        h >= MIN_HOLD_WINDOWS ==> hold_length(h) == h,
        h < MIN_HOLD_WINDOWS ==> hold_length(h) == MIN_HOLD_WINDOWS,
        h <= g ==> hold_length(h) <= hold_length(g),
        (k >= hold_length(h)) <==> (k >= h && k >= MIN_HOLD_WINDOWS),
{
}

} // verus!
