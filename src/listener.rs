//! The listener bridge: a record that owns one listener node per subscribed
//! native signal, together with a payload (the owned wrapper and the user's
//! handler). A callback on one of its nodes finds the record again by the
//! node's index, in place of pointer arithmetic on the node's address.
use vstd::prelude::*;
use crate::signal::Signals;

verus! {

/// A payload together with the listener nodes it answers on.
#[derive(Debug)]
pub struct ListenerBridge<D> {
    data: D,
    nodes: Vec<usize>,
}

/// Whether `l` is among `nodes`.
pub open spec fn owns_node(nodes: Seq<usize>, l: usize) -> bool {
    exists|k: int| 0 <= k < nodes.len() && nodes[k] == l
}

/// Every node of `nodes` is unlinked in `links`.
pub open spec fn all_unlinked(links: Seq<Option<usize>>, nodes: Seq<usize>) -> bool {
    forall|k: int| 0 <= k < nodes.len() ==> (nodes[k] < links.len() && #[trigger] links[nodes[k] as int] is None)
}

impl<D> ListenerBridge<D> {
    /// The payload of this record.
    pub closed spec fn payload(&self) -> D {
        self.data
    }

    /// The payload, to be read.
    pub fn data(&self) -> (r: &D)
        ensures
            *r == self.payload(),
    {
        &self.data
    }

    /// The payload, to be changed; the nodes stay as they are.
    pub fn data_mut(&mut self) -> (r: &mut D)
        ensures
            *r == old(self).payload(),
            final(self).payload() == *final(r),
            final(self).nodes() == old(self).nodes(),
    {
        &mut self.data
    }

    /// The listener nodes of this record, one per signal it can subscribe to.
    pub closed spec fn nodes(&self) -> Seq<usize> {
        self.nodes@
    }

    /// A record holding `data`, with `count` new listener nodes linked
    /// into no signal.
    pub fn new(signals: &mut Signals, data: D, count: usize) -> (b: ListenerBridge<D>)
        ensures
            b.payload() == data,
            b.nodes().len() == count,
            forall|k: int| 0 <= k < count ==> #[trigger] b.nodes()[k] == old(signals).links().len() + k,
            final(signals).links() == old(signals).links() + Seq::new(count as nat, |k: int| None::<usize>),
            final(signals).signal_count() == old(signals).signal_count(),
    {
        let mut nodes: Vec<usize> = Vec::new();
        let mut k: usize = 0;
        while k < count
            invariant
                k <= count,
                nodes@.len() == k,
                forall|j: int| 0 <= j < k ==> #[trigger] nodes@[j] == old(signals).links().len() + j,
                signals.links() == old(signals).links() + Seq::new(k as nat, |j: int| None::<usize>),
                signals.signal_count() == old(signals).signal_count(),
            decreases count - k,
        {
            let l = signals.new_listener();
            nodes.push(l);
            k += 1;
            assert(signals.links() =~= old(signals).links() + Seq::new(k as nat, |j: int| None::<usize>));
        }
        ListenerBridge { data, nodes }
    }

    /// The listener node in slot `k`.
    pub fn listener(&self, k: usize) -> (l: usize)
        requires
            k < self.nodes().len(),
        ensures
            l == self.nodes()[k as int],
    {
        self.nodes[k]
    }

    /// The slot whose node is `l`, if this record owns `l`.
    pub fn slot_of(&self, l: usize) -> (r: Option<usize>)
        ensures
            r matches Some(k) ==> k < self.nodes().len() && self.nodes()[k as int] == l,
            r is None ==> !owns_node(self.nodes(), l),
    {
        let mut k: usize = 0;
        while k < self.nodes.len()
            invariant
                k <= self.nodes@.len(),
                forall|j: int| 0 <= j < k ==> self.nodes@[j] != l,
            decreases self.nodes.len() - k,
        {
            if self.nodes[k] == l {
                return Some(k);
            }
            k += 1;
        }
        None
    }

    /// Links the node in slot `k` into `signal`.
    pub fn subscribe(&self, signals: &mut Signals, k: usize, signal: usize)
        requires
            k < self.nodes().len(),
            self.nodes()[k as int] < old(signals).links().len(),
            old(signals).links()[self.nodes()[k as int] as int] is None,
        ensures
            final(signals).links() == old(signals).links().update(self.nodes()[k as int] as int, Some(signal)),
            final(signals).signal_count() == old(signals).signal_count(),
    {
        signals.add(signal, self.nodes[k]);
    }

    /// Unlinks every node of this record from its signal; other nodes keep
    /// their links.
    pub fn unlink_all(&self, signals: &mut Signals)
        requires
            forall|k: int| 0 <= k < self.nodes().len() ==> #[trigger] self.nodes()[k] < old(signals).links().len(),
        ensures
            final(signals).links().len() == old(signals).links().len(),
            all_unlinked(final(signals).links(), self.nodes()),
            forall|l: usize| l < old(signals).links().len() && !owns_node(self.nodes(), l)
                ==> #[trigger] final(signals).links()[l as int] == old(signals).links()[l as int],
            final(signals).signal_count() == old(signals).signal_count(),
    {
        let mut k: usize = 0;
        while k < self.nodes.len()
            invariant
                k <= self.nodes@.len(),
                forall|j: int| 0 <= j < self.nodes().len() ==> #[trigger] self.nodes()[j] < old(signals).links().len(),
                signals.links().len() == old(signals).links().len(),
                forall|j: int| 0 <= j < k ==> #[trigger] signals.links()[self.nodes()[j] as int] is None,
                forall|l: usize| l < old(signals).links().len() && !owns_node(self.nodes(), l)
                    ==> #[trigger] signals.links()[l as int] == old(signals).links()[l as int],
                signals.signal_count() == old(signals).signal_count(),
            decreases self.nodes.len() - k,
        {
            signals.remove(self.nodes[k]);
            proof {
                assert(owns_node(self.nodes(), self.nodes()[k as int]));
            }
            k += 1;
        }
    }

    /// Frees the record, handing back its payload.
    pub fn into_data(self) -> (d: D)
        ensures
            d == self.payload(),
    {
        self.data
    }
}

} // verus!
