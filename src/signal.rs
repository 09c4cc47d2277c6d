//! The native signal lists, as the safe layer sees them.
//!
//! A signal is a list of listener nodes that the native side invokes, in turn,
//! when the signal fires. A listener node is linked into at most one signal
//! at a time; linking one that is already linked is ruled out by `add`'s
//! precondition, which the listener bridge meets by construction.
use vstd::prelude::*;

verus! {

/// Signals and listener nodes, both named by index.
#[derive(Debug)]
pub struct Signals {
    signal_count: usize,
    links: Vec<Option<usize>>,
}

/// The listener nodes linked into `signal`, in ascending order.
pub open spec fn subscribers_of(links: Seq<Option<usize>>, signal: usize) -> Seq<usize> {
    Seq::new(links.len(), |i: int| i as usize).filter(|l: usize| links[l as int] == Some(signal))
}

impl Signals {
    /// For each listener node, the signal it is linked into.
    pub closed spec fn links(&self) -> Seq<Option<usize>> {
        self.links@
    }

    /// How many signals there are; they are numbered from 0.
    pub closed spec fn signal_count(&self) -> nat {
        self.signal_count as nat
    }

    /// No signals and no listener nodes.
    pub fn new() -> (r: Signals)
        ensures
            r.links() == Seq::<Option<usize>>::empty(),
            r.signal_count() == 0,
    {
        Signals { signal_count: 0, links: Vec::new() }
    }

    /// A new signal, with no listener linked into it.
    pub fn new_signal(&mut self) -> (s: usize)
        requires
            old(self).signal_count() < usize::MAX,
        ensures
            s == old(self).signal_count(),
            final(self).signal_count() == old(self).signal_count() + 1,
            final(self).links() == old(self).links(),
    {
        let s = self.signal_count;
        self.signal_count = s + 1;
        s
    }

    /// A new listener node, linked into no signal.
    pub fn new_listener(&mut self) -> (l: usize)
        ensures
            l == old(self).links().len(),
            final(self).links() == old(self).links().push(None),
            final(self).signal_count() == old(self).signal_count(),
    {
        let l = self.links.len();
        self.links.push(None);
        l
    }

    /// The signal that `listener` is linked into, if any.
    pub fn linked(&self, listener: usize) -> (r: Option<usize>)
        ensures
            r == (if listener < self.links().len() { self.links()[listener as int] } else { None }),
    {
        if listener < self.links.len() {
            self.links[listener]
        } else {
            None
        }
    }

    /// Links `listener` into `signal`.
    pub fn add(&mut self, signal: usize, listener: usize)
        requires
            listener < old(self).links().len(),
            old(self).links()[listener as int] is None,
        ensures
            final(self).links() == old(self).links().update(listener as int, Some(signal)),
            final(self).signal_count() == old(self).signal_count(),
    {
        self.links.set(listener, Some(signal));
    }

    /// Unlinks `listener` from the signal it is linked into, if any.
    pub fn remove(&mut self, listener: usize)
        ensures
            final(self).links() == (if listener < old(self).links().len() {
                old(self).links().update(listener as int, None)
            } else {
                old(self).links()
            }),
            final(self).signal_count() == old(self).signal_count(),
    {
        if listener < self.links.len() {
            self.links.set(listener, None);
        }
    }

    /// The listener nodes that firing `signal` invokes, in ascending order.
    pub fn subscribers(&self, signal: usize) -> (r: Vec<usize>)
        ensures
            r@ == subscribers_of(self.links(), signal),
            forall|a: int, b: int| 0 <= a < b < r@.len() ==> r@[a] < r@[b],
            forall|a: int| 0 <= a < r@.len() ==> self.links()[r@[a] as int] == Some(signal) && r@[a] < self.links().len(),
    {
        let ghost all = Seq::new(self.links@.len(), |i: int| i as usize);
        let ghost pred = |l: usize| self.links@[l as int] == Some(signal);
        let mut r: Vec<usize> = Vec::new();
        let mut i: usize = 0;
        while i < self.links.len()
            invariant
                i <= self.links@.len(),
                all == Seq::new(self.links@.len(), |i: int| i as usize),
                pred == (|l: usize| self.links@[l as int] == Some(signal)),
                r@ == all.take(i as int).filter(pred),
                forall|a: int, b: int| 0 <= a < b < r@.len() ==> r@[a] < r@[b],
                forall|a: int| 0 <= a < r@.len() ==> r@[a] < i && self.links@[r@[a] as int] == Some(signal),
            decreases self.links.len() - i,
        {
            proof {
                assert(all.take(i as int + 1).drop_last() == all.take(i as int));
                reveal(Seq::filter);
            }
            if self.links[i] == Some(signal) {
                r.push(i);
            }
            i += 1;
        }
        proof {
            assert(all.take(self.links@.len() as int) == all);
        }
        r
    }
}

} // verus!
