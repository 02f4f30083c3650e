//! The verified core of a pair of lazy sample-point generators: `n` values
//! evenly spaced over an interval, on a linear or a logarithmic scale.
//!
//! Each generated value is `start + step * i` for an index `i` (exponentiated
//! afterwards on the logarithmic scale), so everything that can go wrong apart
//! from rounding is index bookkeeping: off-by-one counts, degenerate ranges of
//! zero or one point, and drawing from both ends of the range without ever
//! repeating or skipping an index. That bookkeeping is what this crate
//! verifies. The floating-point evaluation of an index is left to the caller,
//! one value per index handed out here.

use vstd::prelude::*;

verus! {

/// The indices `0, 1, ..., n - 1` in front-to-back production order.
pub open spec fn ascending(n: usize) -> Seq<usize> {
    Seq::new(n as nat, |k: int| k as usize)
}

/// A bidirectional cursor over the index range `0 .. n`.
///
/// `front` is the next index to hand out from the front; `back` is one past
/// the next index to hand out from the back. The cursor is exhausted exactly
/// when the two meet, so front and back draws share one pool of indices and
/// can interleave freely.
#[derive(Clone, Copy)]
pub struct Cursor {
    front: usize,
    back: usize,
}

impl Cursor {
    /// The cursor's invariant: the front never passes the back.
    pub closed spec fn wf(self) -> bool {
        self.front <= self.back
    }

    /// The indices still to be produced, in front-to-back order.
    pub closed spec fn indices(self) -> Seq<usize> {
        Seq::new((self.back - self.front) as nat, |k: int| (self.front + k) as usize)
    }

    /// A fresh cursor over all of `0 .. n`.
    pub fn new(n: usize) -> (c: Cursor)
        ensures
            c.wf(),
            c.indices() == ascending(n),
    {
        let c = Cursor { front: 0, back: n };
        proof {
            assert(c.indices() =~= ascending(n));
        }
        c
    }

    /// How many indices are still to come; exact, and free of any consumption.
    pub fn remaining(&self) -> (r: usize)
        requires
            self.wf(),
        ensures
            r == self.indices().len(),
    {
        self.back - self.front
    }

    /// Produce the next index from the front, or report exhaustion.
    pub fn next(&mut self) -> (r: Option<usize>)
        requires
            old(self).wf(),
        ensures
            final(self).wf(),
            old(self).indices().len() == 0 ==> r is None && *final(self) == *old(self),
            old(self).indices().len() > 0 ==> r == Some(old(self).indices().first())
                && final(self).indices() == old(self).indices().drop_first(),
    {
        if self.front == self.back {
            None
        } else {
            let i: usize = self.front;
            self.front = self.front + 1;
            proof {
                assert(self.indices() =~= old(self).indices().drop_first());
            }
            Some(i)
        }
    }

    /// Produce the next index from the back, or report exhaustion.
    ///
    /// The back cursor steps down before it hands the index out, so the back
    /// order is `n - 1, n - 2, ..., 0`: the exact reverse of the front order.
    pub fn next_back(&mut self) -> (r: Option<usize>)
        requires
            old(self).wf(),
        ensures
            final(self).wf(),
            old(self).indices().len() == 0 ==> r is None && *final(self) == *old(self),
            old(self).indices().len() > 0 ==> r == Some(old(self).indices().last())
                && final(self).indices() == old(self).indices().drop_last(),
    {
        if self.front == self.back {
            None
        } else {
            self.back = self.back - 1;
            proof {
                assert(self.indices() =~= old(self).indices().drop_last());
            }
            Some(self.back)
        }
    }
}

/// Exhaust a cursor from the front, collecting every index in production
/// order: exactly the pending indices, ascending.
pub fn collect_forward(c: Cursor) -> (v: Vec<usize>)
    requires
        c.wf(),
    ensures
        v@ == c.indices(),
{
    let mut cur = c;
    let mut v: Vec<usize> = Vec::new();
    proof {
        assert(v@ + cur.indices() =~= c.indices());
    }
    loop
        invariant
            cur.wf(),
            v@ + cur.indices() == c.indices(),
        ensures
            cur.indices().len() == 0,
            v@ + cur.indices() == c.indices(),
        decreases cur.indices().len(),
    {
        let ghost prev_v = v@;
        let ghost prev_i = cur.indices();
        match cur.next() {
            Some(i) => {
                v.push(i);
                proof {
                    assert(v@ + cur.indices() =~= prev_v + prev_i);
                }
            },
            None => {
                break;
            },
        }
    }
    proof {
        assert(v@ =~= c.indices());
    }
    v
}

/// Exhaust a cursor from the back, collecting every index in production
/// order: exactly the pending indices, reversed.
pub fn collect_backward(c: Cursor) -> (v: Vec<usize>)
    requires
        c.wf(),
    ensures
        v@ == c.indices().reverse(),
{
    let mut cur = c;
    let mut v: Vec<usize> = Vec::new();
    proof {
        assert(v@ + cur.indices().reverse() =~= c.indices().reverse());
    }
    loop
        invariant
            cur.wf(),
            v@ + cur.indices().reverse() == c.indices().reverse(),
        ensures
            cur.indices().len() == 0,
            v@ + cur.indices().reverse() == c.indices().reverse(),
        decreases cur.indices().len(),
    {
        let ghost prev_v = v@;
        let ghost prev_i = cur.indices();
        match cur.next_back() {
            Some(i) => {
                v.push(i);
                proof {
                    assert(v@ + cur.indices().reverse() =~= prev_v + prev_i.reverse());
                }
            },
            None => {
                break;
            },
        }
    }
    proof {
        assert(v@ =~= c.indices().reverse());
    }
    v
}

/// The number of equal steps that `n` sample points cut an interval into:
/// none when fewer than two points are asked for (a step never matters
/// there), `n - 1` otherwise.
pub fn step_divisor(n: usize) -> (r: Option<usize>)
    ensures
        n < 2 ==> r is None,
        n >= 2 ==> r == Some((n - 1) as usize),
{
    if n < 2 {
        None
    } else {
        Some(n - 1)
    }
}

/// Size: over `0 .. n` there are exactly `n` indices to produce, from the
/// front as from the back.
pub proof fn lemma_size(n: usize)
    ensures
        ascending(n).len() == n,
        ascending(n).reverse().len() == n,
{
}

/// Monotonicity: front production is strictly increasing, back production
/// strictly decreasing.
pub proof fn lemma_monotone(n: usize)
    ensures
        forall|i: int, j: int| 0 <= i < j < n ==> ascending(n)[i] < ascending(n)[j],
        forall|i: int, j: int|
            0 <= i < j < n ==> ascending(n).reverse()[i] > ascending(n).reverse()[j],
{
}

/// Even spacing: consecutive indices differ by exactly one in either
/// production order, so consecutive produced values differ by exactly one
/// step of whatever size the caller evaluates an index with.
pub proof fn lemma_even_spacing(n: usize)
    ensures
        forall|i: int, j: int|
            0 <= i && j == i + 1 && j < n ==> #[trigger] ascending(n)[j] == #[trigger] ascending(n)[i] + 1,
        forall|i: int, j: int|
            0 <= i && j == i + 1 && j < n ==> #[trigger] ascending(n).reverse()[i]
                == #[trigger] ascending(n).reverse()[j] + 1,
{
}

/// Reversal symmetry: a run drawn entirely from the back, in production
/// order, is the exact reverse of a run drawn entirely from the front.
pub proof fn lemma_reversal_symmetry(c: Cursor, f: Seq<usize>, b: Seq<usize>)
    requires
        c.wf(),
        f == c.indices(),
        b == c.indices().reverse(),
    ensures
        b == f.reverse(),
{
}

/// No index is produced twice: the pending indices are pairwise distinct, and
/// each draw removes the drawn index from the pending pool.
pub proof fn lemma_no_repeats(c: Cursor)
    requires
        c.wf(),
    ensures
        forall|i: int, j: int|
            0 <= i < j < c.indices().len() ==> c.indices()[i] != c.indices()[j],
{
}

/// Degenerate counts: no index at all for `n == 0`, exactly the index `0`
/// for `n == 1`.
pub proof fn lemma_degenerate_counts()
    ensures
        ascending(0) =~= Seq::<usize>::empty(),
        ascending(1) =~= seq![0usize],
{
}

} // verus!
