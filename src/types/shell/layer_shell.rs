//! Layer surfaces: clients that arrange themselves in layers on an output.
//!
//! A [`LayerSurface`] is the owned wrapper made when the native side announces
//! a new layer surface; a [`LayerSurfaceHandle`] is the weak, copyable
//! reference that callbacks receive and that is upgraded with `run`.
use vstd::prelude::*;
use crate::liveliness::{
    fresh_token, lock_token, unlock_token, upgrade_outcome, release_token, HandleErr,
    HandleResult, Liveliness, Token, TokenState, WeakRef,
};

verus! {

/// The owned wrapper of a native layer surface.
#[derive(Debug)]
pub struct LayerSurface {
    liveliness: Token,
    layer_surface: usize,
}

/// A handle to a layer surface that can be upgraded when no other borrow of
/// it is active.
#[derive(Debug, Clone, Copy)]
pub struct LayerSurfaceHandle {
    handle: WeakRef,
    layer_surface: usize,
}

/// The meta information about a layer surface, as the native side holds it.
#[derive(Debug, Clone, Copy, PartialEq, Eq, Structural)]
pub struct LayerSurfaceState {
    pub anchor: u32,
    pub exclusive_zone: i32,
    pub margin_top: u32,
    pub margin_right: u32,
    pub margin_bottom: u32,
    pub margin_left: u32,
    pub keyboard_interactive: bool,
    pub desired_width: u32,
    pub desired_height: u32,
    pub actual_width: u32,
    pub actual_height: u32,
}

/// The configuration sent with a change in state.
#[derive(Debug, Clone, Copy, PartialEq, Eq, Structural)]
pub struct LayerSurfaceConfigure {
    pub serial: u32,
    pub state: LayerSurfaceState,
}

impl LayerSurfaceState {
    pub fn anchor(&self) -> (r: u32)
        ensures
            r == self.anchor,
    {
        self.anchor
    }

    pub fn exclusive_zone(&self) -> (r: i32)
        ensures
            r == self.exclusive_zone,
    {
        self.exclusive_zone
    }

    /// The margin as (top, right, bottom, left).
    pub fn margin(&self) -> (r: (u32, u32, u32, u32))
        ensures
            r == (self.margin_top, self.margin_right, self.margin_bottom, self.margin_left),
    {
        (self.margin_top, self.margin_right, self.margin_bottom, self.margin_left)
    }

    pub fn keyboard_interactive(&self) -> (r: bool)
        ensures
            r == self.keyboard_interactive,
    {
        self.keyboard_interactive
    }

    /// The size the client asked for, as (width, height).
    pub fn desired_size(&self) -> (r: (u32, u32))
        ensures
            r == (self.desired_width, self.desired_height),
    {
        (self.desired_width, self.desired_height)
    }

    /// The size the compositor gave, as (width, height).
    pub fn actual_size(&self) -> (r: (u32, u32))
        ensures
            r == (self.actual_width, self.actual_height),
    {
        (self.actual_width, self.actual_height)
    }
}

impl LayerSurfaceConfigure {
    pub fn serial(&self) -> (r: u32)
        ensures
            r == self.serial,
    {
        self.serial
    }

    pub fn state(&self) -> (r: LayerSurfaceState)
        ensures
            r == self.state,
    {
        self.state
    }
}

impl LayerSurface {
    /// The token that says whether this surface is live.
    pub closed spec fn token_id(&self) -> nat {
        self.liveliness.id()
    }

    /// The address of the native layer surface.
    pub closed spec fn ptr(&self) -> usize {
        self.layer_surface
    }

    /// Whether this is the wrapper that `run` lends, rather than the owner.
    pub closed spec fn is_lent(&self) -> bool {
        self.liveliness.is_lent()
    }

    /// The handle that `weak_reference` gives.
    pub closed spec fn handle_spec(&self) -> LayerSurfaceHandle {
        LayerSurfaceHandle {
            handle: WeakRef::of_token(self.liveliness),
            layer_surface: self.layer_surface,
        }
    }

    /// Wraps the native layer surface at `layer_surface` with a fresh token.
    pub fn new(live: &mut Liveliness, layer_surface: usize) -> (s: LayerSurface)
        ensures
            !s.is_lent(),
            s.token_id() == old(live)@.len(),
            s.ptr() == layer_surface,
            final(live)@ == old(live)@.push(fresh_token()),
    {
        let liveliness = live.create();
        LayerSurface { liveliness, layer_surface }
    }

    /// The address of the native layer surface.
    pub fn as_ptr(&self) -> (r: usize)
        ensures
            r == self.ptr(),
    {
        self.layer_surface
    }

    /// Creates a weak reference to this layer surface.
    pub fn weak_reference(&self) -> (h: LayerSurfaceHandle)
        ensures
            h == self.handle_spec(),
            h.weak().target() == Some(self.token_id()),
            h.ptr() == self.ptr(),
    {
        LayerSurfaceHandle { handle: WeakRef::from_token(&self.liveliness), layer_surface: self.layer_surface }
    }

    /// Gives up this wrapper: every handle to it fails with `AlreadyDropped`
    /// from now on. The wrapper that `run` lends is not the owner: releasing
    /// it changes nothing.
    pub fn release(self, live: &mut Liveliness)
        ensures
            final(live)@ == (if self.is_lent() { old(live)@ } else { release_token(old(live)@, self.token_id()) }),
    {
        live.release(self.liveliness);
    }
}

impl LayerSurfaceHandle {
    /// The weak reference this handle holds.
    pub closed spec fn weak(&self) -> WeakRef {
        self.handle
    }

    /// The address of the native layer surface, null for the empty handle.
    pub closed spec fn ptr(&self) -> usize {
        self.layer_surface
    }

    /// The wrapper that `run` lends to its runner.
    pub closed spec fn upgraded(&self) -> LayerSurface {
        LayerSurface {
            liveliness: Token::of_weak(self.handle),
            layer_surface: self.layer_surface,
        }
    }

    /// A handle that is always invalid: `run` on it always fails.
    ///
    /// Useful to pre-fill a value before the server provides one.
    pub fn new() -> (h: LayerSurfaceHandle)
        ensures
            h.weak().target() is None,
            h.ptr() == 0,
    {
        LayerSurfaceHandle { handle: WeakRef::empty(), layer_surface: 0 }
    }

    /// The address of the native layer surface.
    pub fn as_ptr(&self) -> (r: usize)
        ensures
            r == self.ptr(),
    {
        self.layer_surface
    }

    /// Runs `runner` on the referenced layer surface, if it still exists and is
    /// not borrowed already, and returns its result.
    ///
    /// The surface stays borrowed while `runner` runs: a nested `run` on this
    /// handle fails with `AlreadyBorrowed`. The borrow is given back afterwards.
    pub fn run<R, F: FnOnce(&mut Liveliness, &mut LayerSurface) -> R>(
        &mut self,
        live: &mut Liveliness,
        runner: F,
    ) -> (r: HandleResult<R>)
        requires
            forall|l: &mut Liveliness, o: &mut LayerSurface| runner.requires((l, o)),
        ensures
            old(self).upgraded().is_lent(),
            old(self).upgraded().ptr() == old(self).ptr(),
            old(self).weak().target() matches Some(i) ==> old(self).upgraded().token_id() == i,
            *final(self) == *old(self),
            upgrade_outcome(old(live)@, old(self).weak()) matches Err(e) ==> r == Err::<R, HandleErr>(e)
                && final(live)@ == old(live)@,
            upgrade_outcome(old(live)@, old(self).weak()) is Ok ==> r is Ok && exists|l: &mut Liveliness, o: &mut LayerSurface|
                l@ == lock_token(old(live)@, old(self).weak()) && *o == old(self).upgraded()
                    && #[trigger] runner.ensures((l, o), r->Ok_0)
                    && final(live)@ == unlock_token(final(l)@, old(self).weak()),
    {
        let surface = LayerSurface {
            liveliness: Token::from_weak(&self.handle),
            layer_surface: self.layer_surface,
        };
        proof {
            Token::lemma_of_weak(self.handle);
        }
        live.run_scoped(&self.handle, surface, runner)
    }
}

impl Default for LayerSurfaceHandle {
    fn default() -> (h: LayerSurfaceHandle)
        ensures
            h.weak().target() is None,
            h.ptr() == 0,
    {
        LayerSurfaceHandle::new()
    }
}

impl PartialEq for LayerSurfaceHandle {
    fn eq(&self, other: &LayerSurfaceHandle) -> (r: bool)
        ensures
            r == (self.ptr() == other.ptr()),
    {
        self.layer_surface == other.layer_surface
    }
}

impl vstd::std_specs::cmp::PartialEqSpecImpl for LayerSurfaceHandle {
    open spec fn obeys_eq_spec() -> bool {
        true
    }

    open spec fn eq_spec(&self, other: &LayerSurfaceHandle) -> bool {
        self.ptr() == other.ptr()
    }
}

impl Eq for LayerSurfaceHandle {
}

/// Once the wrapper is released, `run` on any handle it gave fails with
/// `AlreadyDropped`, whatever the table held.
pub proof fn lemma_run_after_release(s: LayerSurface, h: LayerSurfaceHandle, tokens: Seq<TokenState>)
    requires
        h == s.handle_spec(),
    ensures
        upgrade_outcome(release_token(tokens, s.token_id()), h.weak()) == Err::<(), HandleErr>(HandleErr::AlreadyDropped),
{
    WeakRef::lemma_of_token(s.liveliness);
}

/// Every handle that `weak_reference` gives for one layer surface compares equal to
/// the others, names the layer surface's own token, and so upgrades exactly when
/// the others do.
pub proof fn lemma_weak_references_agree(s: LayerSurface, h1: LayerSurfaceHandle, h2: LayerSurfaceHandle, tokens: Seq<TokenState>)
    requires
        h1 == s.handle_spec(),
        h2 == s.handle_spec(),
    ensures
        h1.ptr() == h2.ptr(),
        h1.weak().target() == Some(s.token_id()),
        h2.weak().target() == Some(s.token_id()),
        upgrade_outcome(tokens, h1.weak()) == upgrade_outcome(tokens, h2.weak()),
{
    WeakRef::lemma_of_token(s.liveliness);
}

/// Upgrading a handle and asking the lent wrapper for a weak reference gives
/// a handle that compares equal to the first and names the same token.
pub proof fn lemma_upgrade_round_trip(h: LayerSurfaceHandle)
    requires
        h.weak().target() is Some,
    ensures
        h.upgraded().handle_spec().ptr() == h.ptr(),
        h.upgraded().handle_spec().weak() == h.weak(),
        h.upgraded().handle_spec() == h,
{
    WeakRef::lemma_round_trip(h.weak());
}

} // verus!
