//! The ticker: a counter that yields 0, 1, 2, ... — one value per tick.
//!
//! The background task around it sends each value into the bounded queue and
//! then sleeps for the tick interval; both of those live outside the library.
//! The ghost history records every value handed out, so that the order of
//! delivery can be stated and proved.

use vstd::prelude::*;

verus! {

/// Produces the tick values in order. The ghost `history` holds every value
/// already handed out, oldest first.
pub struct Ticker {
    next: i32,
    history: Ghost<Seq<int>>,
}

impl Ticker {
    /// The values handed out so far, oldest first.
    pub closed spec fn emitted(self) -> Seq<int> {
        self.history@
    }

    /// The value the next call of [`Ticker::next_value`] will hand out.
    pub closed spec fn counter(self) -> int {
        self.next as int
    }

    /// The counter equals the number of values handed out, and the n-th value
    /// handed out was n.
    pub open spec fn wf(self) -> bool {
        &&& self.counter() == self.emitted().len()
        &&& forall|i: int| 0 <= i < self.emitted().len() ==> self.emitted()[i] == i
    }

    /// A fresh ticker: counter at 0, nothing handed out yet.
    pub fn new() -> (t: Ticker)
        ensures
            t.wf(),
            t.emitted() == Seq::<int>::empty(),
    {
        Ticker { next: 0, history: Ghost(Seq::empty()) }
    }

    /// Whether the counter can still advance without leaving `i32`.
    pub fn can_tick(&self) -> (r: bool)
        ensures
            r == (self.counter() < i32::MAX as int),
    {
        self.next < i32::MAX
    }

    /// Hand out the next value and advance the counter by one.
    pub fn next_value(&mut self) -> (v: i32)
        requires
            old(self).wf(),
            old(self).counter() < i32::MAX as int,
        ensures
            final(self).wf(),
            v as int == old(self).emitted().len(),
            final(self).emitted() == old(self).emitted().push(v as int),
            final(self).counter() == old(self).counter() + 1,
    {
        let v = self.next;
        self.next = self.next + 1;
        proof {
            self.history@ = self.history@.push(v as int);
        }
        v
    }
}

/// The n-th value a well-formed ticker handed out equals n (0-indexed).
pub proof fn lemma_ticker_nth(t: Ticker, n: int)
    requires
        t.wf(),
        0 <= n < t.emitted().len(),
    ensures
        t.emitted()[n] == n,
{
}

} // verus!
