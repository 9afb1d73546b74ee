//! A seven-slot circular history buffer.
//!
//! The cycle engine reads samples spaced 0, 2, 3, 4 and 6 steps back
//! from the newest one, so only the seven most recent values of each
//! derived series are kept, in a fixed array with a write pointer and
//! modular indexing. The ghost view of a buffer is the whole history
//! written so far; `hread` is the engine's uniform read rule: an
//! offset that would reach before the first sample falls back to the
//! newest value.

use vstd::prelude::*;
use vstd::arithmetic::div_mod::{lemma_add_mod_noop, lemma_small_mod};

verus! {

/// Read `off` steps back in history `h` from position `i`, falling
/// back to the value at `i` when the offset reaches before time 0.
pub open spec fn hread(h: Seq<int>, i: int, off: int) -> int {
    if off > i {
        h[i]
    } else {
        h[i - off]
    }
}

/// Positions less than seven apart occupy distinct slots.
proof fn lemma_mod7_distinct(j: int, n: int)
    requires
        0 <= j < n,
        n - j < 7,
    ensures
        j % 7 != n % 7,
{
    let d = n - j;
    lemma_add_mod_noop(j, d, 7);
    lemma_small_mod(d as nat, 7nat);
    if j % 7 == n % 7 {
        assert((j % 7 + d % 7) % 7 == n % 7);
        if j % 7 + d < 7 {
            lemma_small_mod((j % 7 + d) as nat, 7nat);
        } else {
            lemma_small_mod((j % 7 + d - 7) as nat, 7nat);
            assert((j % 7 + d) % 7 == (j % 7 + d - 7) % 7) by {
                lemma_add_mod_noop(j % 7 + d - 7, 7, 7);
            }
        }
    }
}

/// A circular buffer holding the last seven values of one series.
/// Its view is the full history of values pushed so far.
pub struct Ring7 {
    buf: Vec<i128>,
    n: usize,
    hist: Ghost<Seq<int>>,
}

impl View for Ring7 {
    type V = Seq<int>;

    closed spec fn view(&self) -> Seq<int> {
        self.hist@
    }
}

impl Ring7 {
    /// The buffer matches the last seven entries of its history.
    pub closed spec fn wf(&self) -> bool {
        &&& self.buf@.len() == 7
        &&& self.n == self.hist@.len()
        &&& forall|j: int|
            0 <= j < self.hist@.len() && j + 7 >= self.hist@.len() ==> self.buf@[j % 7] as int
                == self.hist@[j]
    }

    /// An empty buffer.
    pub fn new() -> (r: Ring7)
        ensures
            r.wf(),
            r@ == Seq::<int>::empty(),
    {
        let mut buf: Vec<i128> = Vec::new();
        let mut k: usize = 0;
        while k < 7
            invariant
                buf@.len() == k,
                k <= 7,
            decreases 7 - k,
        {
            buf.push(0);
            k = k + 1;
        }
        Ring7 { buf, n: 0, hist: Ghost(Seq::empty()) }
    }

    /// How many values have been pushed.
    pub fn len(&self) -> (r: usize)
        requires
            self.wf(),
        ensures
            r == self@.len(),
    {
        self.n
    }

    /// Append the newest value, overwriting the slot of the value
    /// seven steps old.
    pub fn push(&mut self, v: i128)
        requires
            old(self).wf(),
            old(self)@.len() < usize::MAX,
        ensures
            final(self).wf(),
            final(self)@ == old(self)@.push(v as int),
    {
        let slot: usize = self.n % 7;
        self.buf[slot] = v;
        self.n = self.n + 1;
        proof {
            self.hist@ = self.hist@.push(v as int);
        }
        proof {
            let h = self.hist@;
            let n = h.len() - 1;
            assert forall|j: int| 0 <= j < h.len() && j + 7 >= h.len() implies self.buf@[j % 7]
                as int == h[j] by {
                if j == n {
                    assert(n % 7 == slot as int);
                } else {
                    lemma_mod7_distinct(j, n);
                }
            }
        }
    }

    /// Read `off` steps back from the newest value, with the
    /// before-time-0 fallback of `hread`.
    pub fn read(&self, off: usize) -> (r: i128)
        requires
            self.wf(),
            self@.len() >= 1,
            off <= 6,
        ensures
            r as int == hread(self@, self@.len() - 1, off as int),
    {
        let i: usize = self.n - 1;
        if off > i {
            self.buf[i % 7]
        } else {
            self.buf[(i - off) % 7]
        }
    }
}

} // verus!
