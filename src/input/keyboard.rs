//! Keyboards.
//!
//! A [`Keyboard`] is the owned wrapper of a native keyboard device; a
//! [`Handle`] is the weak, copyable reference that callbacks receive.
use vstd::prelude::*;
use crate::liveliness::{
    fresh_token, lock_token, unlock_token, upgrade_outcome, release_token, HandleErr,
    HandleResult, Liveliness, Token, TokenState, WeakRef,
};

verus! {

/// The owned wrapper of a native keyboard.
#[derive(Debug)]
pub struct Keyboard {
    liveliness: Token,
    keyboard: usize,
}

/// A handle to a keyboard that can be upgraded when no other borrow of it is
/// active.
#[derive(Debug, Clone, Copy)]
pub struct Handle {
    handle: WeakRef,
    keyboard: usize,
}

/// A key event, as the native side reports it.
#[derive(Debug, Clone, Copy, PartialEq, Eq, Structural)]
pub struct Key {
    /// When the key changed state, in milliseconds.
    pub time_msec: u32,
    /// The key's code.
    pub keycode: u32,
    /// Whether the key went down (or else up).
    pub pressed: bool,
}

impl Keyboard {
    /// The token that says whether this surface is live.
    pub closed spec fn token_id(&self) -> nat {
        self.liveliness.id()
    }

    /// The address of the native keyboard.
    pub closed spec fn ptr(&self) -> usize {
        self.keyboard
    }

    /// Whether this is the wrapper that `run` lends, rather than the owner.
    pub closed spec fn is_lent(&self) -> bool {
        self.liveliness.is_lent()
    }

    /// The handle that `weak_reference` gives.
    pub closed spec fn handle_spec(&self) -> Handle {
        Handle {
            handle: WeakRef::of_token(self.liveliness),
            keyboard: self.keyboard,
        }
    }

    /// Wraps the native keyboard at `keyboard` with a fresh token.
    pub fn new(live: &mut Liveliness, keyboard: usize) -> (s: Keyboard)
        ensures
            !s.is_lent(),
            s.token_id() == old(live)@.len(),
            s.ptr() == keyboard,
            final(live)@ == old(live)@.push(fresh_token()),
    {
        let liveliness = live.create();
        Keyboard { liveliness, keyboard }
    }

    /// The address of the native keyboard.
    pub fn as_ptr(&self) -> (r: usize)
        ensures
            r == self.ptr(),
    {
        self.keyboard
    }

    /// Creates a weak reference to this keyboard.
    pub fn weak_reference(&self) -> (h: Handle)
        ensures
            h == self.handle_spec(),
            h.weak().target() == Some(self.token_id()),
            h.ptr() == self.ptr(),
    {
        Handle { handle: WeakRef::from_token(&self.liveliness), keyboard: self.keyboard }
    }

    /// Gives up this wrapper: every handle to it fails with `AlreadyDropped`
    /// from now on. The wrapper that `run` lends is not the owner: releasing
    /// it changes nothing.
    pub fn release(self, live: &mut Liveliness)
        ensures
            final(live)@ == (if self.is_lent() { old(live)@ } else { release_token(old(live)@, self.token_id()) }),
    {
        live.release(self.liveliness);
    }
}

impl Handle {
    /// The weak reference this handle holds.
    pub closed spec fn weak(&self) -> WeakRef {
        self.handle
    }

    /// The address of the native keyboard, null for the empty handle.
    pub closed spec fn ptr(&self) -> usize {
        self.keyboard
    }

    /// The wrapper that `run` lends to its runner.
    pub closed spec fn upgraded(&self) -> Keyboard {
        Keyboard {
            liveliness: Token::of_weak(self.handle),
            keyboard: self.keyboard,
        }
    }

    /// A handle that is always invalid: `run` on it always fails.
    ///
    /// Useful to pre-fill a value before the server provides one.
    pub fn new() -> (h: Handle)
        ensures
            h.weak().target() is None,
            h.ptr() == 0,
    {
        Handle { handle: WeakRef::empty(), keyboard: 0 }
    }

    /// The address of the native keyboard.
    pub fn as_ptr(&self) -> (r: usize)
        ensures
            r == self.ptr(),
    {
        self.keyboard
    }

    /// Runs `runner` on the referenced keyboard, if it still exists and is
    /// not borrowed already, and returns its result.
    ///
    /// The surface stays borrowed while `runner` runs: a nested `run` on this
    /// handle fails with `AlreadyBorrowed`. The borrow is given back afterwards.
    pub fn run<R, F: FnOnce(&mut Liveliness, &mut Keyboard) -> R>(
        &self,
        live: &mut Liveliness,
        runner: F,
    ) -> (r: HandleResult<R>)
        requires
            forall|l: &mut Liveliness, o: &mut Keyboard| runner.requires((l, o)),
        ensures
            self.upgraded().is_lent(),
            self.upgraded().ptr() == self.ptr(),
            self.weak().target() matches Some(i) ==> self.upgraded().token_id() == i,
            upgrade_outcome(old(live)@, self.weak()) matches Err(e) ==> r == Err::<R, HandleErr>(e)
                && final(live)@ == old(live)@,
            upgrade_outcome(old(live)@, self.weak()) is Ok ==> r is Ok && exists|l: &mut Liveliness, o: &mut Keyboard|
                l@ == lock_token(old(live)@, self.weak()) && *o == self.upgraded()
                    && #[trigger] runner.ensures((l, o), r->Ok_0)
                    && final(live)@ == unlock_token(final(l)@, self.weak()),
    {
        let surface = Keyboard {
            liveliness: Token::from_weak(&self.handle),
            keyboard: self.keyboard,
        };
        proof {
            Token::lemma_of_weak(self.handle);
        }
        live.run_scoped(&self.handle, surface, runner)
    }
}

impl Default for Handle {
    fn default() -> (h: Handle)
        ensures
            h.weak().target() is None,
            h.ptr() == 0,
    {
        Handle::new()
    }
}

impl PartialEq for Handle {
    fn eq(&self, other: &Handle) -> (r: bool)
        ensures
            r == (self.ptr() == other.ptr()),
    {
        self.keyboard == other.keyboard
    }
}

impl vstd::std_specs::cmp::PartialEqSpecImpl for Handle {
    open spec fn obeys_eq_spec() -> bool {
        true
    }

    open spec fn eq_spec(&self, other: &Handle) -> bool {
        self.ptr() == other.ptr()
    }
}

impl Eq for Handle {
}

/// Once the wrapper is released, `run` on any handle it gave fails with
/// `AlreadyDropped`, whatever the table held.
pub proof fn lemma_run_after_release(s: Keyboard, h: Handle, tokens: Seq<TokenState>)
    requires
        h == s.handle_spec(),
    ensures
        upgrade_outcome(release_token(tokens, s.token_id()), h.weak()) == Err::<(), HandleErr>(HandleErr::AlreadyDropped),
{
    WeakRef::lemma_of_token(s.liveliness);
}

/// Every handle that `weak_reference` gives for one keyboard compares equal to
/// the others, names the keyboard's own token, and so upgrades exactly when
/// the others do.
pub proof fn lemma_weak_references_agree(s: Keyboard, h1: Handle, h2: Handle, tokens: Seq<TokenState>)
    requires
        h1 == s.handle_spec(),
        h2 == s.handle_spec(),
    ensures
        h1.ptr() == h2.ptr(),
        h1.weak().target() == Some(s.token_id()),
        h2.weak().target() == Some(s.token_id()),
        upgrade_outcome(tokens, h1.weak()) == upgrade_outcome(tokens, h2.weak()),
{
    WeakRef::lemma_of_token(s.liveliness);
}

/// Upgrading a handle and asking the lent wrapper for a weak reference gives
/// a handle that compares equal to the first and names the same token.
pub proof fn lemma_upgrade_round_trip(h: Handle)
    requires
        h.weak().target() is Some,
    ensures
        h.upgraded().handle_spec().ptr() == h.ptr(),
        h.upgraded().handle_spec().weak() == h.weak(),
        h.upgraded().handle_spec() == h,
{
    WeakRef::lemma_round_trip(h.weak());
}

} // verus!
