//! Handler for keyboards.
//!
//! A [`KeyboardWrapper`] pairs a keyboard's owned wrapper with the user's
//! handler and listens to the keyboard's destroy, key, modifiers, keymap and
//! repeat-info signals; each callback calls the matching handler method with a
//! handle to the keyboard.
use vstd::prelude::*;
use crate::input::keyboard::{Handle, Key, Keyboard};
use crate::liveliness::{fresh_token, release_token, Liveliness, TokenState};
use crate::listener::{all_unlinked, owns_node, ListenerBridge};
use crate::signal::Signals;

verus! {

/// The slot of the destroy listener.
pub const DESTROY_SLOT: usize = 0;
/// The slot of the key listener.
pub const KEY_SLOT: usize = 1;
/// The slot of the modifiers listener.
pub const MODIFIERS_SLOT: usize = 2;
/// The slot of the keymap listener.
pub const KEYMAP_SLOT: usize = 3;
/// The slot of the repeat-info listener.
pub const REPEAT_SLOT: usize = 4;
/// How many signals a keyboard wrapper listens to.
pub const LISTENER_COUNT: usize = 5;

/// Handles the events of one keyboard. Every method does nothing unless the
/// implementation says otherwise.
pub trait Handler {
    /// Called when a key is pressed or released.
    fn on_key(&mut self, live: &mut Liveliness, keyboard_handle: Handle, event: &Key) {
    }

    /// Called when modifiers are pressed.
    fn modifiers(&mut self, live: &mut Liveliness, keyboard_handle: Handle) {
    }

    /// Called when the keymap is updated.
    fn keymap(&mut self, live: &mut Liveliness, keyboard_handle: Handle) {
    }

    /// Called when repeat info is updated.
    fn repeat_info(&mut self, live: &mut Liveliness, keyboard_handle: Handle) {
    }

    /// Called when the keyboard is destroyed, while its handle still upgrades.
    fn destroyed(&mut self, live: &mut Liveliness, keyboard_handle: Handle) {
    }
}

/// What the native side tells about a keyboard: its address and its signals.
#[derive(Debug, Clone, Copy, PartialEq, Eq, Structural)]
pub struct NativeKeyboard {
    pub ptr: usize,
    pub destroy: usize,
    pub key: usize,
    pub modifiers: usize,
    pub keymap: usize,
    pub repeat_info: usize,
}

/// A keyboard, its handler, and the listener nodes they answer on.
pub struct KeyboardWrapper<H> {
    bridge: ListenerBridge<(Keyboard, H)>,
}

impl<H: Handler> KeyboardWrapper<H> {
    /// The listener nodes, by slot.
    pub closed spec fn nodes(&self) -> Seq<usize> {
        self.bridge.nodes()
    }

    /// The address of the native keyboard.
    pub closed spec fn ptr(&self) -> usize {
        self.bridge.payload().0.ptr()
    }

    /// The keyboard's token.
    pub closed spec fn token_id(&self) -> nat {
        self.bridge.payload().0.token_id()
    }

    /// The wrapper holds the keyboard's owner, not a wrapper lent by `run`.
    pub closed spec fn wf(&self) -> bool {
        !self.bridge.payload().0.is_lent()
    }

    /// Wraps the native keyboard with a fresh token and subscribes new
    /// listener nodes, one per slot, to its signals.
    pub fn new(live: &mut Liveliness, signals: &mut Signals, native: &NativeKeyboard, handler: H) -> (w: KeyboardWrapper<H>)
        ensures
            w.wf(),
            w.ptr() == native.ptr,
            w.token_id() == old(live)@.len(),
            final(live)@ == old(live)@.push(fresh_token()),
            w.nodes() == Seq::new(LISTENER_COUNT as nat, |k: int| (old(signals).links().len() + k) as usize),
            final(signals).links() == old(signals).links() + seq![
                Some(native.destroy),
                Some(native.key),
                Some(native.modifiers),
                Some(native.keymap),
                Some(native.repeat_info),
            ],
            final(signals).signal_count() == old(signals).signal_count(),
    {
        let keyboard = Keyboard::new(live, native.ptr);
        let bridge = ListenerBridge::new(signals, (keyboard, handler), LISTENER_COUNT);
        bridge.subscribe(signals, DESTROY_SLOT, native.destroy);
        bridge.subscribe(signals, KEY_SLOT, native.key);
        bridge.subscribe(signals, MODIFIERS_SLOT, native.modifiers);
        bridge.subscribe(signals, KEYMAP_SLOT, native.keymap);
        bridge.subscribe(signals, REPEAT_SLOT, native.repeat_info);
        proof {
            let base = old(signals).links().len();
            assert(bridge.nodes() =~= Seq::new(LISTENER_COUNT as nat, |k: int| (base + k) as usize));
            assert(signals.links() =~= old(signals).links() + seq![
                Some(native.destroy),
                Some(native.key),
                Some(native.modifiers),
                Some(native.keymap),
                Some(native.repeat_info),
            ]);
        }
        KeyboardWrapper { bridge }
    }

    /// A handle to the keyboard.
    pub fn keyboard_handle(&self) -> (h: Handle)
        ensures
            h.ptr() == self.ptr(),
            h.weak().target() == Some(self.token_id()),
    {
        self.bridge.data().0.weak_reference()
    }

    /// The slot whose node is `listener`, if this wrapper owns it.
    pub fn slot_of(&self, listener: usize) -> (r: Option<usize>)
        ensures
            r matches Some(k) ==> k < self.nodes().len() && self.nodes()[k as int] == listener,
            r is None ==> !owns_node(self.nodes(), listener),
    {
        self.bridge.slot_of(listener)
    }

    /// Calls the handler's `on_key` with `event`.
    pub fn key_notify(&mut self, live: &mut Liveliness, event: &Key)
        requires
            old(self).wf(),
        ensures
            final(self).wf(),
            final(self).nodes() == old(self).nodes(),
            final(self).ptr() == old(self).ptr(),
            final(self).token_id() == old(self).token_id(),
    {
        let handle = self.bridge.data().0.weak_reference();
        self.bridge.data_mut().1.on_key(live, handle, event);
    }

    /// Calls the handler's `modifiers`.
    pub fn modifiers_notify(&mut self, live: &mut Liveliness)
        requires
            old(self).wf(),
        ensures
            final(self).wf(),
            final(self).nodes() == old(self).nodes(),
            final(self).ptr() == old(self).ptr(),
            final(self).token_id() == old(self).token_id(),
    {
        let handle = self.bridge.data().0.weak_reference();
        self.bridge.data_mut().1.modifiers(live, handle);
    }

    /// Calls the handler's `keymap`.
    pub fn keymap_notify(&mut self, live: &mut Liveliness)
        requires
            old(self).wf(),
        ensures
            final(self).wf(),
            final(self).nodes() == old(self).nodes(),
            final(self).ptr() == old(self).ptr(),
            final(self).token_id() == old(self).token_id(),
    {
        let handle = self.bridge.data().0.weak_reference();
        self.bridge.data_mut().1.keymap(live, handle);
    }

    /// Calls the handler's `repeat_info`.
    pub fn repeat_notify(&mut self, live: &mut Liveliness)
        requires
            old(self).wf(),
        ensures
            final(self).wf(),
            final(self).nodes() == old(self).nodes(),
            final(self).ptr() == old(self).ptr(),
            final(self).token_id() == old(self).token_id(),
    {
        let handle = self.bridge.data().0.weak_reference();
        self.bridge.data_mut().1.repeat_info(live, handle);
    }

    /// Handles the keyboard's destruction: the handler's `destroyed` runs
    /// first, while the keyboard's handle still upgrades; then every node is
    /// unlinked; then the wrapper is freed and the keyboard released.
    pub fn destroy_notify(self, live: &mut Liveliness, signals: &mut Signals)
        requires
            self.wf(),
            forall|k: int| 0 <= k < self.nodes().len() ==> #[trigger] self.nodes()[k] < old(signals).links().len(),
        ensures
            final(signals).links().len() == old(signals).links().len(),
            all_unlinked(final(signals).links(), self.nodes()),
            forall|l: usize| l < old(signals).links().len() && !owns_node(self.nodes(), l)
                ==> #[trigger] final(signals).links()[l as int] == old(signals).links()[l as int],
            final(signals).signal_count() == old(signals).signal_count(),
            exists|mid: Seq<TokenState>| final(live)@ == release_token(mid, self.token_id()),
    {
        let mut bridge = self.bridge;
        let handle = bridge.data().0.weak_reference();
        bridge.data_mut().1.destroyed(live, handle);
        let ghost mid = live@;
        assert(bridge.nodes() == self.nodes());
        bridge.unlink_all(signals);
        let (keyboard, _handler) = bridge.into_data();
        keyboard.release(live);
        assert(live@ == release_token(mid, self.token_id()));
    }
}

} // verus!
