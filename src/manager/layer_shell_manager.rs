//! Manager for layer shell clients.
//!
//! When the native side announces a layer surface, the manager wraps it, asks
//! the user's factory for a handler, and, if there is one and the surface has
//! an output, subscribes a listener bridge to the surface's destroy, map and
//! unmap signals. Listener callbacks come back through `notify`; the destroy
//! callback runs the handler's `destroyed`, unlinks the bridge's nodes, then
//! frees the bridge and releases the surface, in that order.
use vstd::prelude::*;
use crate::liveliness::{release_token, Liveliness, TokenState};
use crate::listener::{all_unlinked, owns_node, ListenerBridge};
use crate::manager::layer_shell_handler::LayerShellHandler;
use crate::signal::{subscribers_of, Signals};
use crate::types::shell::layer_shell::{LayerSurface, LayerSurfaceHandle};

verus! {

/// The slot of the destroy listener in a layer shell's bridge.
pub const DESTROY_SLOT: usize = 0;
/// The slot of the map listener.
pub const MAP_SLOT: usize = 1;
/// The slot of the unmap listener.
pub const UNMAP_SLOT: usize = 2;
/// How many signals a layer shell's bridge listens to.
pub const LISTENER_COUNT: usize = 3;

/// Makes handlers for new layer surfaces.
pub trait LayerShellManagerHandler<H> {
    /// Called when a new layer surface appears.
    ///
    /// `output` is the output the client asked for; where it is `None` the
    /// handler must assign one, or the surface is closed.
    fn new_surface(
        &mut self,
        live: &mut Liveliness,
        layer_surface: LayerSurfaceHandle,
        output: &mut Option<usize>,
    ) -> Option<H>;
}

/// What the native side tells about a new layer surface.
#[derive(Debug, Clone, Copy, PartialEq, Eq, Structural)]
pub struct NativeLayerSurface {
    /// Address of the native layer surface.
    pub ptr: usize,
    /// Address of the output the client asked for, null for none.
    pub output: usize,
    /// The surface's destroy signal.
    pub destroy: usize,
    /// The surface's map signal.
    pub map: usize,
    /// The surface's unmap signal.
    pub unmap: usize,
}

/// What became of a new layer surface.
#[derive(Debug, Clone, Copy, PartialEq, Eq, Structural)]
pub enum AddOutcome {
    /// A handler was made and the surface is kept.
    Managed,
    /// The factory made no handler; the surface is left to the native default.
    Declined,
    /// No output was assigned; the caller must close the native surface.
    Closed,
}

/// What becomes of a new layer surface, given the output it has once the
/// factory was asked and whether the factory made a handler.
pub open spec fn outcome_of(output: Option<usize>, has_handler: bool) -> AddOutcome {
    if output is None {
        AddOutcome::Closed
    } else if !has_handler {
        AddOutcome::Declined
    } else {
        AddOutcome::Managed
    }
}

/// What becomes of a new layer surface: without an output it is closed,
/// without a handler it is left alone, otherwise it is managed.
pub fn add_outcome(output: Option<usize>, has_handler: bool) -> (r: AddOutcome)
    ensures
        r == outcome_of(output, has_handler),
{
    if output.is_none() {
        AddOutcome::Closed
    } else if !has_handler {
        AddOutcome::Declined
    } else {
        AddOutcome::Managed
    }
}

/// The output the client asked for, as handed to the factory: none for a
/// null address.
pub fn requested_output(native: &NativeLayerSurface) -> (r: Option<usize>)
    ensures
        r == (if native.output == 0 { None } else { Some(native.output) }),
{
    if native.output == 0 {
        None
    } else {
        Some(native.output)
    }
}

/// Tracks the layer surfaces that have a handler.
pub struct LayerShellManager<M, H> {
    handler: M,
    shells: Vec<ListenerBridge<(LayerSurface, H)>>,
}

/// One kept surface as the contracts see it: the native address, the
/// token and the listener nodes.
pub type Entry = (usize, nat, Seq<usize>);

/// The kept entries are well formed against `links`: each has one node per
/// slot, every node exists, and no two slots anywhere share a node.
pub open spec fn entries_wf(entries: Seq<Entry>, links: Seq<Option<usize>>) -> bool {
    &&& forall|j: int| 0 <= j < entries.len() ==> (#[trigger] entries[j]).2.len() == LISTENER_COUNT
    &&& forall|j: int, k: int| 0 <= j < entries.len() && 0 <= k < LISTENER_COUNT
        ==> #[trigger] entries[j].2[k] < links.len()
    &&& forall|j1: int, k1: int, j2: int, k2: int|
        0 <= j1 < entries.len() && 0 <= k1 < LISTENER_COUNT && 0 <= j2 < entries.len() && 0 <= k2 < LISTENER_COUNT
            && #[trigger] entries[j1].2[k1] == #[trigger] entries[j2].2[k2] ==> j1 == j2 && k1 == k2
}

/// Whether listener node `l` belongs to some kept entry.
pub open spec fn owns_listener(entries: Seq<Entry>, l: usize) -> bool {
    exists|j: int, k: int| 0 <= j < entries.len() && 0 <= k < LISTENER_COUNT && #[trigger] entries[j].2[k] == l
}

/// Whether some entry's destroy node is among `listeners`.
pub open spec fn hits_destroy(entries: Seq<Entry>, listeners: Seq<usize>) -> bool {
    exists|j: int| 0 <= j < entries.len() && listeners.contains(#[trigger] entries[j].2[DESTROY_SLOT as int])
}

/// Well-formed entries are pairwise different.
proof fn lemma_entries_distinct(entries: Seq<Entry>, links: Seq<Option<usize>>)
    requires
        entries_wf(entries, links),
    ensures
        forall|a: int, b: int| 0 <= a < entries.len() && 0 <= b < entries.len() && a != b
            ==> #[trigger] entries[a] != #[trigger] entries[b],
{
    assert forall|a: int, b: int| 0 <= a < entries.len() && 0 <= b < entries.len() && a != b
        implies #[trigger] entries[a] != #[trigger] entries[b] by {
        if entries[a] == entries[b] {
            assert(entries[a].2[DESTROY_SLOT as int] == entries[b].2[DESTROY_SLOT as int]);
        }
    }
}

/// What one `notify` on `l` did to the entries and links, as far as the
/// other entries are concerned.
proof fn lemma_after_notify(
    cur: Seq<Entry>,
    links: Seq<Option<usize>>,
    fin: Seq<Entry>,
    flinks: Seq<Option<usize>>,
    l: usize,
)
    requires
        entries_wf(cur, links),
        flinks.len() == links.len(),
        !owns_listener(cur, l) ==> fin == cur && flinks == links,
        forall|j: int, k: int| 0 <= j < cur.len() && 0 <= k < LISTENER_COUNT
            && #[trigger] cur[j].2[k] == l ==> (if k == DESTROY_SLOT {
                fin == cur.remove(j)
                    && (forall|x: usize| x < links.len() && !owns_node(cur[j].2, x)
                        ==> #[trigger] flinks[x as int] == links[x as int])
            } else {
                fin == cur && flinks == links
            }),
    ensures
        forall|e: Entry| fin.contains(e) ==> cur.contains(e),
        forall|p: int| 0 <= p < cur.len() && #[trigger] cur[p].2[DESTROY_SLOT as int] != l
            ==> fin.contains(cur[p]) && flinks[cur[p].2[DESTROY_SLOT as int] as int] == links[cur[p].2[DESTROY_SLOT as int] as int],
        forall|p: int| 0 <= p < cur.len() && #[trigger] cur[p].2[DESTROY_SLOT as int] == l ==> !fin.contains(cur[p]),
{
    lemma_entries_distinct(cur, links);
    if owns_listener(cur, l) {
        let (jj, k) = choose|jj: int, k: int| 0 <= jj < cur.len() && 0 <= k < LISTENER_COUNT && #[trigger] cur[jj].2[k] == l;
        if k == DESTROY_SLOT {
            assert(fin == cur.remove(jj));
            assert forall|e: Entry| fin.contains(e) implies cur.contains(e) by {
                let x = choose|x: int| 0 <= x < fin.len() && #[trigger] fin[x] == e;
                if x < jj {
                    assert(cur[x] == e);
                } else {
                    assert(cur[x + 1] == e);
                }
            }
            assert forall|p: int| 0 <= p < cur.len() && #[trigger] cur[p].2[DESTROY_SLOT as int] != l
                implies fin.contains(cur[p]) && flinks[cur[p].2[DESTROY_SLOT as int] as int] == links[cur[p].2[DESTROY_SLOT as int] as int] by {
                assert(p != jj);
                if p < jj {
                    assert(fin[p] == cur[p]);
                } else {
                    assert(fin[p - 1] == cur[p]);
                }
                let d = cur[p].2[DESTROY_SLOT as int];
                if owns_node(cur[jj].2, d) {
                    let k2 = choose|k2: int| 0 <= k2 < cur[jj].2.len() && #[trigger] cur[jj].2[k2] == d;
                    assert(cur[jj].2[k2] == cur[p].2[DESTROY_SLOT as int]);
                }
            }
            assert forall|p: int| 0 <= p < cur.len() && #[trigger] cur[p].2[DESTROY_SLOT as int] == l
                implies !fin.contains(cur[p]) by {
                assert(cur[p].2[DESTROY_SLOT as int] == cur[jj].2[k]);
                if fin.contains(cur[p]) {
                    let x = choose|x: int| 0 <= x < fin.len() && #[trigger] fin[x] == cur[p];
                    if x < jj {
                        assert(cur[x] == cur[p]);
                    } else {
                        assert(cur[x + 1] == cur[p]);
                    }
                }
            }
        } else {
            assert forall|p: int| 0 <= p < cur.len() && #[trigger] cur[p].2[DESTROY_SLOT as int] == l
                implies false by {
                assert(cur[p].2[DESTROY_SLOT as int] == cur[jj].2[k]);
            }
        }
    } else {
        assert forall|p: int| 0 <= p < cur.len() && #[trigger] cur[p].2[DESTROY_SLOT as int] == l
            implies false by {
            assert(cur[p].2[DESTROY_SLOT as int] == l);
        }
    }
}

impl<M: LayerShellManagerHandler<H>, H: LayerShellHandler> LayerShellManager<M, H> {
    /// The kept surfaces, in the order they were added.
    pub closed spec fn entries(&self) -> Seq<Entry> {
        self.shells@.map_values(|b: ListenerBridge<(LayerSurface, H)>| (b.payload().0.ptr(), b.payload().0.token_id(), b.nodes()))
    }

    /// A manager that tracks nothing yet and asks `handler` for handlers.
    pub fn new(handler: M) -> (r: LayerShellManager<M, H>)
        ensures
            r.wf(),
            r.entries() == Seq::<Entry>::empty(),
            r.factory() == handler,
    {
        let r = LayerShellManager { handler, shells: Vec::new() };
        assert(r.entries() =~= Seq::<Entry>::empty());
        r
    }

    /// Every kept surface is held by its owner, not by a wrapper lent by `run`.
    pub closed spec fn wf(&self) -> bool {
        forall|j: int| 0 <= j < self.shells@.len() ==> !(#[trigger] self.shells@[j]).payload().0.is_lent()
    }

    /// The factory that makes handlers for new surfaces.
    pub closed spec fn factory(&self) -> M {
        self.handler
    }

    /// The factory that makes handlers for new surfaces.
    pub fn handler(&self) -> (r: &M)
        ensures
            *r == self.factory(),
    {
        &self.handler
    }

    /// How many surfaces are kept.
    pub fn len(&self) -> (n: usize)
        ensures
            n == self.entries().len(),
    {
        self.shells.len()
    }

    /// Whether the native layer surface at `ptr` is kept.
    pub fn is_managed(&self, ptr: usize) -> (r: bool)
        ensures
            r == exists|j: int| 0 <= j < self.entries().len() && #[trigger] self.entries()[j].0 == ptr,
    {
        let mut j: usize = 0;
        while j < self.shells.len()
            invariant
                j <= self.shells@.len(),
                forall|i: int| 0 <= i < j ==> #[trigger] self.entries()[i].0 != ptr,
            decreases self.shells.len() - j,
        {
            if self.shells[j].data().0.as_ptr() == ptr {
                assert(self.entries()[j as int].0 == ptr);
                return true;
            }
            j += 1;
        }
        false
    }

    /// The entry and slot whose listener node is `l`.
    fn find_listener(&self, l: usize) -> (r: Option<(usize, usize)>)
        ensures
            r matches Some((j, k)) ==> j < self.entries().len() && k < self.entries()[j as int].2.len()
                && self.entries()[j as int].2[k as int] == l,
            r is None ==> forall|j: int| 0 <= j < self.entries().len()
                ==> !owns_node(#[trigger] self.entries()[j].2, l),
    {
        let mut j: usize = 0;
        while j < self.shells.len()
            invariant
                j <= self.shells@.len(),
                forall|i: int| 0 <= i < j ==> !owns_node(#[trigger] self.entries()[i].2, l),
            decreases self.shells.len() - j,
        {
            match self.shells[j].slot_of(l) {
                Some(k) => {
                    return Some((j, k));
                },
                None => {},
            }
            j += 1;
        }
        None
    }

    /// Handles the native side's announcement of a new layer surface.
    ///
    /// The surface is wrapped with a fresh token and the factory is asked for
    /// a handler. Without an output afterwards the surface is released and
    /// `Closed` returned; without a handler it is released and `Declined`
    /// returned. Otherwise a bridge with fresh listener nodes is subscribed
    /// to the surface's destroy, map and unmap signals and kept.
    pub fn add_notify(&mut self, live: &mut Liveliness, signals: &mut Signals, native: &NativeLayerSurface) -> (r: AddOutcome)
        requires
            old(self).wf(),
            entries_wf(old(self).entries(), old(signals).links()),
        ensures
            final(self).wf(),
            entries_wf(final(self).entries(), final(signals).links()),
            final(signals).signal_count() == old(signals).signal_count(),
            r != AddOutcome::Managed ==> final(self).entries() == old(self).entries()
                && final(signals).links() == old(signals).links()
                && exists|mid: Seq<TokenState>| final(live)@ == release_token(mid, old(live)@.len()),
            r == AddOutcome::Managed ==> final(self).entries() == old(self).entries().push((
                native.ptr,
                old(live)@.len(),
                seq![old(signals).links().len() as usize, (old(signals).links().len() + 1) as usize, (old(signals).links().len() + 2) as usize],
            )) && final(signals).links() == old(signals).links() + seq![Some(native.destroy), Some(native.map), Some(native.unmap)],
    {
        let surface = LayerSurface::new(live, native.ptr);
        let mut output = requested_output(native);
        let res = self.handler.new_surface(live, surface.weak_reference(), &mut output);
        match add_outcome(output, res.is_some()) {
            AddOutcome::Closed => {
                surface.release(live);
                AddOutcome::Closed
            },
            AddOutcome::Declined => {
                surface.release(live);
                AddOutcome::Declined
            },
            AddOutcome::Managed => {
                let handler = res.unwrap();
                let ghost base = signals.links().len();
                let bridge = ListenerBridge::new(signals, (surface, handler), LISTENER_COUNT);
                bridge.subscribe(signals, DESTROY_SLOT, native.destroy);
                bridge.subscribe(signals, MAP_SLOT, native.map);
                bridge.subscribe(signals, UNMAP_SLOT, native.unmap);
                let ghost old_entries = self.entries();
                self.shells.push(bridge);
                proof {
                    assert(bridge.nodes() =~= seq![base as usize, (base + 1) as usize, (base + 2) as usize]);
                    assert(self.entries() =~= old_entries.push((native.ptr, bridge.payload().0.token_id(), bridge.nodes())));
                    assert(signals.links() =~= old(signals).links() + seq![Some(native.destroy), Some(native.map), Some(native.unmap)]);
                }
                AddOutcome::Managed
            },
        }
    }

    /// Handles a callback on listener node `listener`, returning the slot it
    /// was dispatched to; a node that no kept surface owns is ignored.
    ///
    /// On the destroy slot the handler's `destroyed` runs first, while the
    /// surface's handle still upgrades; then every node of the bridge is
    /// unlinked; then the bridge is dropped from the kept surfaces and the
    /// surface is released.
    pub fn notify(&mut self, live: &mut Liveliness, signals: &mut Signals, listener: usize) -> (r: Option<usize>)
        requires
            old(self).wf(),
            entries_wf(old(self).entries(), old(signals).links()),
        ensures
            final(self).wf(),
            entries_wf(final(self).entries(), final(signals).links()),
            final(signals).signal_count() == old(signals).signal_count(),
            final(signals).links().len() == old(signals).links().len(),
            !owns_listener(old(self).entries(), listener) ==> r is None && final(self).entries() == old(self).entries()
                && final(signals).links() == old(signals).links() && final(live)@ == old(live)@,
            forall|j: int, k: int| 0 <= j < old(self).entries().len() && 0 <= k < LISTENER_COUNT
                && #[trigger] old(self).entries()[j].2[k] == listener ==> r == Some(k as usize) && (if k == DESTROY_SLOT {
                    final(self).entries() == old(self).entries().remove(j)
                        && all_unlinked(final(signals).links(), old(self).entries()[j].2)
                        && (forall|l: usize| l < old(signals).links().len() && !owns_node(old(self).entries()[j].2, l)
                            ==> #[trigger] final(signals).links()[l as int] == old(signals).links()[l as int])
                        && exists|mid: Seq<TokenState>| final(live)@ == release_token(mid, old(self).entries()[j].1)
                } else {
                    final(self).entries() == old(self).entries() && final(signals).links() == old(signals).links()
                }),
    {
        let found = self.find_listener(listener);
        match found {
            None => {
                proof {
                    assert forall|j: int, k: int| 0 <= j < self.entries().len() && 0 <= k < LISTENER_COUNT
                        implies #[trigger] self.entries()[j].2[k] != listener by {
                        if self.entries()[j].2[k] == listener {
                            assert(owns_node(self.entries()[j].2, listener));
                        }
                    }
                }
                None
            },
            Some((j, k)) => {
                let ghost old_entries = self.entries();
                proof {
                    assert forall|jj: int, kk: int| 0 <= jj < old_entries.len() && 0 <= kk < LISTENER_COUNT
                        && #[trigger] old_entries[jj].2[kk] == listener implies jj == j && kk == k by {
                        assert(old_entries[j as int].2[k as int] == listener);
                    }
                }
                let mut bridge = self.shells.remove(j);
                assert(bridge.nodes() == old_entries[j as int].2);
                assert(bridge.payload().0.token_id() == old_entries[j as int].1);
                let handle = bridge.data().0.weak_reference();
                if k == DESTROY_SLOT {
                    bridge.data_mut().1.destroyed(live, handle);
                    let ghost mid = live@;
                    bridge.unlink_all(signals);
                    let (surface, _handler) = bridge.into_data();
                    assert(surface.token_id() == old_entries[j as int].1);
                    surface.release(live);
                    proof {
                        assert(self.entries() =~= old_entries.remove(j as int));
                        assert(live@ == release_token(mid, old_entries[j as int].1));
                    }
                } else {
                    if k == MAP_SLOT {
                        bridge.data_mut().1.on_map(live, handle);
                    } else {
                        bridge.data_mut().1.on_unmap(live, handle);
                    }
                    self.shells.insert(j, bridge);
                    proof {
                        assert(self.entries() =~= old_entries);
                    }
                }
                Some(k)
            },
        }
    }

    /// Fires `signal` as the native side does: each listener node linked into
    /// it when firing starts is notified in ascending order, if it is still
    /// linked into it when its turn comes. Returns how many were notified.
    ///
    /// Every kept surface whose destroy node was among them is gone
    /// afterwards; when none was, every node was notified and the kept
    /// surfaces and the links are as they were.
    pub fn emit(&mut self, live: &mut Liveliness, signals: &mut Signals, signal: usize) -> (n: usize)
        requires
            old(self).wf(),
            entries_wf(old(self).entries(), old(signals).links()),
        ensures
            final(self).wf(),
            entries_wf(final(self).entries(), final(signals).links()),
            final(signals).signal_count() == old(signals).signal_count(),
            final(signals).links().len() == old(signals).links().len(),
            n <= subscribers_of(old(signals).links(), signal).len(),
            subscribers_of(old(signals).links(), signal).len() > 0 ==> n > 0,
            subscribers_of(old(signals).links(), signal).len() == 0 ==> final(self).entries() == old(self).entries()
                && final(signals).links() == old(signals).links() && final(live)@ == old(live)@,
            !hits_destroy(old(self).entries(), subscribers_of(old(signals).links(), signal))
                ==> n == subscribers_of(old(signals).links(), signal).len()
                && final(self).entries() == old(self).entries() && final(signals).links() == old(signals).links(),
            forall|j: int| 0 <= j < old(self).entries().len()
                && subscribers_of(old(signals).links(), signal).contains(#[trigger] old(self).entries()[j].2[DESTROY_SLOT as int])
                ==> !final(self).entries().contains(old(self).entries()[j]),
            forall|e: Entry| final(self).entries().contains(e) ==> old(self).entries().contains(e),
    {
        let listeners = signals.subscribers(signal);
        let ghost oe = self.entries();
        let ghost subs = listeners@;
        let mut n: usize = 0;
        let mut i: usize = 0;
        while i < listeners.len()
            invariant
                i <= listeners@.len(),
                n <= i,
                self.wf(),
                entries_wf(self.entries(), signals.links()),
                signals.signal_count() == old(signals).signal_count(),
                signals.links().len() == old(signals).links().len(),
                listeners@ == subscribers_of(old(signals).links(), signal),
                subs == listeners@,
                oe == old(self).entries(),
                forall|a: int, b: int| 0 <= a < b < subs.len() ==> subs[a] < subs[b],
                forall|a: int| 0 <= a < subs.len() ==> old(signals).links()[subs[a] as int] == Some(signal)
                    && subs[a] < old(signals).links().len(),
                listeners@.len() == 0 ==> self.entries() == old(self).entries()
                    && signals.links() == old(signals).links() && live@ == old(live)@,
                i == 0 ==> self.entries() == oe && signals.links() == old(signals).links(),
                i > 0 ==> n > 0,
                !hits_destroy(oe, subs) ==> self.entries() == oe && signals.links() == old(signals).links() && n == i,
                forall|e: Entry| self.entries().contains(e) ==> oe.contains(e),
                forall|j: int| 0 <= j < oe.len() && subs.subrange(i as int, subs.len() as int).contains(#[trigger] oe[j].2[DESTROY_SLOT as int])
                    ==> self.entries().contains(oe[j]) && signals.links()[oe[j].2[DESTROY_SLOT as int] as int] == Some(signal),
                forall|j: int| 0 <= j < oe.len() && subs.subrange(0, i as int).contains(#[trigger] oe[j].2[DESTROY_SLOT as int])
                    ==> !self.entries().contains(oe[j]),
            decreases listeners.len() - i,
        {
            let l = listeners[i];
            let ghost cur = self.entries();
            let ghost links = signals.links();
            proof {
                lemma_entries_distinct(cur, links);
            }
            if signals.linked(l) == Some(signal) {
                self.notify(live, signals, l);
                n += 1;
                proof {
                    let fin = self.entries();
                    let flinks = signals.links();
                    lemma_after_notify(cur, links, fin, flinks, l);
                    assert(subs[i as int] == l);
                    assert forall|j: int| 0 <= j < oe.len() && #[trigger] subs.subrange(i + 1, subs.len() as int).contains(#[trigger] oe[j].2[DESTROY_SLOT as int])
                        implies fin.contains(oe[j]) && flinks[oe[j].2[DESTROY_SLOT as int] as int] == Some(signal) by {
                        let q = choose|q: int| 0 <= q < subs.subrange(i + 1, subs.len() as int).len()
                            && #[trigger] subs.subrange(i + 1, subs.len() as int)[q] == oe[j].2[DESTROY_SLOT as int];
                        assert(subs.subrange(i as int, subs.len() as int)[q + 1] == oe[j].2[DESTROY_SLOT as int]);
                        assert(subs[i + 1 + q] == oe[j].2[DESTROY_SLOT as int]);
                        assert(subs[i as int] < subs[i + 1 + q]);
                    }
                    assert forall|j: int| 0 <= j < oe.len() && #[trigger] subs.subrange(0, i + 1).contains(#[trigger] oe[j].2[DESTROY_SLOT as int])
                        implies !fin.contains(oe[j]) by {
                        let q = choose|q: int| 0 <= q < subs.subrange(0, i + 1).len()
                            && #[trigger] subs.subrange(0, i + 1)[q] == oe[j].2[DESTROY_SLOT as int];
                        if q < i {
                            assert(subs.subrange(0, i as int)[q] == oe[j].2[DESTROY_SLOT as int]);
                        } else {
                            assert(subs.subrange(i as int, subs.len() as int)[0] == oe[j].2[DESTROY_SLOT as int]);
                            assert(cur.contains(oe[j]));
                        }
                    }
                    if !hits_destroy(oe, subs) {
                        assert forall|jj: int, k: int| 0 <= jj < cur.len() && 0 <= k < LISTENER_COUNT && #[trigger] cur[jj].2[k] == l
                            implies k != DESTROY_SLOT by {
                            if k == DESTROY_SLOT {
                                assert(subs.contains(oe[jj].2[DESTROY_SLOT as int]));
                            }
                        }
                    }
                }
            } else {
                proof {
                    assert forall|j: int| 0 <= j < oe.len() && #[trigger] subs.subrange(i + 1, subs.len() as int).contains(#[trigger] oe[j].2[DESTROY_SLOT as int])
                        implies self.entries().contains(oe[j]) && signals.links()[oe[j].2[DESTROY_SLOT as int] as int] == Some(signal) by {
                        let q = choose|q: int| 0 <= q < subs.subrange(i + 1, subs.len() as int).len()
                            && #[trigger] subs.subrange(i + 1, subs.len() as int)[q] == oe[j].2[DESTROY_SLOT as int];
                        assert(subs.subrange(i as int, subs.len() as int)[q + 1] == oe[j].2[DESTROY_SLOT as int]);
                    }
                    assert forall|j: int| 0 <= j < oe.len() && #[trigger] subs.subrange(0, i + 1).contains(#[trigger] oe[j].2[DESTROY_SLOT as int])
                        implies !self.entries().contains(oe[j]) by {
                        let q = choose|q: int| 0 <= q < subs.subrange(0, i + 1).len()
                            && #[trigger] subs.subrange(0, i + 1)[q] == oe[j].2[DESTROY_SLOT as int];
                        if q < i {
                            assert(subs.subrange(0, i as int)[q] == oe[j].2[DESTROY_SLOT as int]);
                        } else {
                            assert(subs.subrange(i as int, subs.len() as int)[0] == oe[j].2[DESTROY_SLOT as int]);
                        }
                    }
                    if !hits_destroy(oe, subs) {
                        assert(signals.links()[l as int] == Some(signal));
                    }
                }
            }
            i += 1;
        }
        proof {
            assert(subs.subrange(0, subs.len() as int) == subs);
        }
        n
    }
}

/// Once entry `j` is dropped by its destroy callback, none of its listener
/// nodes belongs to a remaining entry, so a later callback on any of them is
/// ignored: `destroyed` runs once per surface.
pub proof fn lemma_destroyed_entry_is_gone(entries: Seq<Entry>, links: Seq<Option<usize>>, j: int)
    requires
        entries_wf(entries, links),
        0 <= j < entries.len(),
    ensures
        forall|k: int| 0 <= k < LISTENER_COUNT ==> !owns_listener(entries.remove(j), #[trigger] entries[j].2[k]),
{
    let rest = entries.remove(j);
    assert forall|k: int| 0 <= k < LISTENER_COUNT implies !owns_listener(rest, #[trigger] entries[j].2[k]) by {
        if owns_listener(rest, entries[j].2[k]) {
            let (j2, k2) = choose|j2: int, k2: int| 0 <= j2 < rest.len() && 0 <= k2 < LISTENER_COUNT
                && #[trigger] rest[j2].2[k2] == entries[j].2[k];
            let oj = if j2 < j { j2 } else { j2 + 1 };
            assert(rest[j2] == entries[oj]);
            assert(entries[oj].2[k2] == entries[j].2[k]);
        }
    }
}

/// Unlinking the nodes of entry `j`, as its destroy callback does, leaves the
/// nodes of every other entry linked as they were: destroying one surface
/// leaves the others' callbacks in place.
pub proof fn lemma_destroy_keeps_other_entries(
    entries: Seq<Entry>,
    before: Seq<Option<usize>>,
    after: Seq<Option<usize>>,
    j: int,
    other: int,
)
    requires
        entries_wf(entries, before),
        0 <= j < entries.len(),
        0 <= other < entries.len(),
        other != j,
        forall|l: usize| l < before.len() && !owns_node(entries[j].2, l) ==> #[trigger] after[l as int] == before[l as int],
    ensures
        forall|k: int| 0 <= k < LISTENER_COUNT
            ==> after[#[trigger] entries[other].2[k] as int] == before[entries[other].2[k] as int],
{
    assert forall|k: int| 0 <= k < LISTENER_COUNT
        implies after[#[trigger] entries[other].2[k] as int] == before[entries[other].2[k] as int] by {
        let l = entries[other].2[k];
        if owns_node(entries[j].2, l) {
            let k2 = choose|k2: int| 0 <= k2 < entries[j].2.len() && entries[j].2[k2] == l;
            assert(entries[j].2[k2] == entries[other].2[k]);
        }
    }
}

/// Once a surface's destroy callback has unlinked its nodes, firing any
/// signal, its destroy signal included, reaches none of them: firing it again
/// calls back into nothing that was freed.
pub proof fn lemma_destroyed_nodes_unreachable(links: Seq<Option<usize>>, nodes: Seq<usize>, signal: usize)
    requires
        all_unlinked(links, nodes),
    ensures
        forall|k: int| 0 <= k < nodes.len() ==> !subscribers_of(links, signal).contains(#[trigger] nodes[k]),
{
    let all = Seq::new(links.len(), |i: int| i as usize);
    let pred = |l: usize| links[l as int] == Some(signal);
    assert forall|k: int| 0 <= k < nodes.len() implies !subscribers_of(links, signal).contains(#[trigger] nodes[k]) by {
        if subscribers_of(links, signal).contains(nodes[k]) {
            all.lemma_filter_contains_rev(pred, nodes[k]);
        }
    }
}

} // verus!
