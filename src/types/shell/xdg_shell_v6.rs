//! Surfaces of the unstable (v6) xdg shell.
//!
//! An xdg surface has a role, top level or popup, which the wrapper and its
//! handles carry as a tagged value, so that it is known even when the surface
//! cannot be upgraded.
use vstd::prelude::*;
use crate::user_data::UserData;
use crate::liveliness::{
    fresh_token, lock_token, unlock_token, upgrade_outcome, release_token, HandleErr,
    HandleResult, Liveliness, Token, TokenState, WeakRef,
};

verus! {

/// The top level role of an xdg v6 surface.
#[derive(Debug, Clone, Copy, PartialEq, Eq, Hash, Structural)]
pub struct XdgV6TopLevel {
    shell_surface: usize,
    toplevel: usize,
}

/// The popup role of an xdg v6 surface.
#[derive(Debug, Clone, Copy, PartialEq, Eq, Hash, Structural)]
pub struct XdgV6Popup {
    shell_surface: usize,
    popup: usize,
}

/// A tagged enum of the different roles used by the xdg shell.
#[derive(Debug, Clone, Copy, PartialEq, Eq, Hash, Structural)]
pub enum XdgV6ShellState {
    TopLevel(XdgV6TopLevel),
    Popup(XdgV6Popup),
}

/// The owned wrapper of a native xdg v6 surface.
#[derive(Debug)]
pub struct XdgV6ShellSurface {
    liveliness: Token,
    state: Option<XdgV6ShellState>,
    shell_surface: usize,
}

/// A weak, copyable reference to an xdg v6 surface, with a copy of its role.
#[derive(Debug, Clone, Copy)]
pub struct XdgV6ShellSurfaceHandle {
    state: Option<XdgV6ShellState>,
    handle: WeakRef,
    shell_surface: usize,
}

impl XdgV6TopLevel {
    /// The top level role of the xdg surface at `shell_surface`, whose native
    /// top level record is at `toplevel`.
    pub fn from_shell(shell_surface: usize, toplevel: usize) -> (r: XdgV6TopLevel)
        ensures
            r.shell_surface_ptr() == shell_surface,
            r.ptr() == toplevel,
    {
        XdgV6TopLevel { shell_surface, toplevel }
    }

    pub closed spec fn shell_surface_ptr(&self) -> usize {
        self.shell_surface
    }

    pub closed spec fn ptr(&self) -> usize {
        self.toplevel
    }

    /// The address of the native top level record.
    pub fn as_ptr(&self) -> (r: usize)
        ensures
            r == self.ptr(),
    {
        self.toplevel
    }
}

impl XdgV6Popup {
    /// The popup role of the xdg surface at `shell_surface`, whose native
    /// popup record is at `popup`.
    pub fn from_shell(shell_surface: usize, popup: usize) -> (r: XdgV6Popup)
        ensures
            r.shell_surface_ptr() == shell_surface,
            r.ptr() == popup,
    {
        XdgV6Popup { shell_surface, popup }
    }

    pub closed spec fn shell_surface_ptr(&self) -> usize {
        self.shell_surface
    }

    pub closed spec fn ptr(&self) -> usize {
        self.popup
    }

    /// The address of the native popup record.
    pub fn as_ptr(&self) -> (r: usize)
        ensures
            r == self.ptr(),
    {
        self.popup
    }
}

/// What a surface keeps in its native object's user-data slot, to rebuild a
/// handle from the object's address.
#[derive(Debug, Clone, Copy)]
pub struct XdgV6ShellSurfaceState {
    handle: WeakRef,
    shell_state: Option<XdgV6ShellState>,
}

impl XdgV6ShellSurface {
    /// The token that says whether this surface is live.
    pub closed spec fn token_id(&self) -> nat {
        self.liveliness.id()
    }

    /// The address of the native xdg surface.
    pub closed spec fn ptr(&self) -> usize {
        self.shell_surface
    }

    /// The role of this surface, if it has one.
    pub closed spec fn role_state(&self) -> Option<XdgV6ShellState> {
        self.state
    }

    /// What this surface keeps in its native object's user-data slot.
    pub closed spec fn slot_spec(&self) -> XdgV6ShellSurfaceState {
        XdgV6ShellSurfaceState { handle: WeakRef::of_token(self.liveliness), shell_state: self.state }
    }

    /// Whether this is the wrapper that `run` lends, rather than the owner.
    pub closed spec fn is_lent(&self) -> bool {
        self.liveliness.is_lent()
    }

    /// The handle that `weak_reference` gives.
    pub closed spec fn handle_spec(&self) -> XdgV6ShellSurfaceHandle {
        XdgV6ShellSurfaceHandle {
            state: self.state,
            handle: WeakRef::of_token(self.liveliness),
            shell_surface: self.shell_surface,
        }
    }

    /// Wraps the native xdg surface at `shell_surface`, with role `state`, with
    /// a fresh token, and fills the object's user-data slot in `data`.
    ///
    /// The object's user-data slot must be empty: a surface is set up once.
    pub fn new(
        live: &mut Liveliness,
        data: &mut UserData<XdgV6ShellSurfaceState>,
        shell_surface: usize,
        state: Option<XdgV6ShellState>,
    ) -> (s: XdgV6ShellSurface)
        requires
            old(data).wf(),
            !old(data)@.contains_key(shell_surface),
        ensures
            !s.is_lent(),
            s.token_id() == old(live)@.len(),
            s.ptr() == shell_surface,
            s.role_state() == state,
            final(live)@ == old(live)@.push(fresh_token()),
            final(data).wf(),
            final(data)@ == old(data)@.insert(shell_surface, s.slot_spec()),
    {
        let liveliness = live.create();
        let slot = XdgV6ShellSurfaceState { handle: WeakRef::from_token(&liveliness), shell_state: state };
        data.insert(shell_surface, slot);
        XdgV6ShellSurface { liveliness, state, shell_surface }
    }

    /// The address of the native xdg surface.
    pub fn as_ptr(&self) -> (r: usize)
        ensures
            r == self.ptr(),
    {
        self.shell_surface
    }

    /// The role of this surface, to be matched on.
    pub fn state(&mut self) -> (r: Option<&mut XdgV6ShellState>)
        ensures
            old(self).role_state() is None ==> r is None && *final(self) == *old(self),
            old(self).role_state() matches Some(st) ==> r matches Some(s) && *s == st
                && final(self).role_state() == Some(*final(s))
                && final(self).token_id() == old(self).token_id()
                && final(self).ptr() == old(self).ptr(),
    {
        match &mut self.state {
            Some(s) => Some(s),
            None => None,
        }
    }

    /// Creates a weak reference to this surface.
    pub fn weak_reference(&self) -> (h: XdgV6ShellSurfaceHandle)
        ensures
            h == self.handle_spec(),
            h.weak().target() == Some(self.token_id()),
            h.ptr() == self.ptr(),
            h.role_state() == self.role_state(),
    {
        XdgV6ShellSurfaceHandle {
            state: self.state,
            handle: WeakRef::from_token(&self.liveliness),
            shell_surface: self.shell_surface,
        }
    }

    /// Gives up this wrapper: every handle to it fails with `AlreadyDropped`
    /// from now on, and the object's user-data slot is emptied. The wrapper
    /// that `run` lends is not the owner: releasing it changes nothing.
    pub fn release(self, live: &mut Liveliness, data: &mut UserData<XdgV6ShellSurfaceState>)
        requires
            old(data).wf(),
        ensures
            final(live)@ == (if self.is_lent() { old(live)@ } else { release_token(old(live)@, self.token_id()) }),
            final(data).wf(),
            final(data)@ == (if self.is_lent() { old(data)@ } else { old(data)@.remove(self.ptr()) }),
    {
        if !self.liveliness.lent() {
            data.remove(self.shell_surface);
            live.release(self.liveliness);
        }
    }
}

impl XdgV6ShellSurfaceHandle {
    /// The handle that the user-data slot `slot` of the object at `ptr` gives.
    pub closed spec fn of_slot(ptr: usize, slot: XdgV6ShellSurfaceState) -> XdgV6ShellSurfaceHandle {
        XdgV6ShellSurfaceHandle { state: slot.shell_state, handle: slot.handle, shell_surface: ptr }
    }

    /// The handle of the surface whose native object is at `shell_surface`,
    /// rebuilt from the object's user-data slot, which must have been set up.
    pub fn from_ptr(data: &UserData<XdgV6ShellSurfaceState>, shell_surface: usize) -> (r: XdgV6ShellSurfaceHandle)
        requires
            data.wf(),
            shell_surface != 0,
            data@.contains_key(shell_surface),
        ensures
            r == XdgV6ShellSurfaceHandle::of_slot(shell_surface, data@[shell_surface]),
    {
        let slot = data.get(shell_surface).unwrap();
        XdgV6ShellSurfaceHandle { state: slot.shell_state, handle: slot.handle, shell_surface }
    }

    /// The weak reference this handle holds.
    pub closed spec fn weak(&self) -> WeakRef {
        self.handle
    }

    /// The address of the native xdg surface, null for the empty handle.
    pub closed spec fn ptr(&self) -> usize {
        self.shell_surface
    }

    /// The copy of the surface's role.
    pub closed spec fn role_state(&self) -> Option<XdgV6ShellState> {
        self.state
    }

    /// The wrapper that `run` lends to its runner.
    pub closed spec fn upgraded(&self) -> XdgV6ShellSurface {
        XdgV6ShellSurface {
            liveliness: Token::of_weak(self.handle),
            state: self.state,
            shell_surface: self.shell_surface,
        }
    }

    /// A handle that is always invalid: `run` on it always fails.
    ///
    /// Useful to pre-fill a value before the server provides one.
    pub fn new() -> (h: XdgV6ShellSurfaceHandle)
        ensures
            h.weak().target() is None,
            h.ptr() == 0,
            h.role_state() is None,
    {
        XdgV6ShellSurfaceHandle { state: None, handle: WeakRef::empty(), shell_surface: 0 }
    }

    /// The address of the native xdg surface.
    pub fn as_ptr(&self) -> (r: usize)
        ensures
            r == self.ptr(),
    {
        self.shell_surface
    }

    /// Runs `runner` on the referenced surface, if it still exists and is not
    /// borrowed already, and returns its result.
    ///
    /// The surface stays borrowed while `runner` runs: a nested `run` on this
    /// handle fails with `AlreadyBorrowed`. The borrow is given back afterwards.
    pub fn run<R, F: FnOnce(&mut Liveliness, &mut XdgV6ShellSurface) -> R>(
        &self,
        live: &mut Liveliness,
        runner: F,
    ) -> (r: HandleResult<R>)
        requires
            forall|l: &mut Liveliness, o: &mut XdgV6ShellSurface| runner.requires((l, o)),
        ensures
            self.upgraded().is_lent(),
            self.upgraded().ptr() == self.ptr(),
            self.weak().target() matches Some(i) ==> self.upgraded().token_id() == i,
            self.upgraded().role_state() == self.role_state(),
            upgrade_outcome(old(live)@, self.weak()) matches Err(e) ==> r == Err::<R, HandleErr>(e)
                && final(live)@ == old(live)@,
            upgrade_outcome(old(live)@, self.weak()) is Ok ==> r is Ok && exists|l: &mut Liveliness, o: &mut XdgV6ShellSurface|
                l@ == lock_token(old(live)@, self.weak()) && *o == self.upgraded()
                    && #[trigger] runner.ensures((l, o), r->Ok_0)
                    && final(live)@ == unlock_token(final(l)@, self.weak()),
    {
        let surface = XdgV6ShellSurface {
            liveliness: Token::from_weak(&self.handle),
            state: self.state,
            shell_surface: self.shell_surface,
        };
        proof {
            Token::lemma_of_weak(self.handle);
        }
        live.run_scoped(&self.handle, surface, runner)
    }
}

impl Default for XdgV6ShellSurfaceHandle {
    fn default() -> (h: XdgV6ShellSurfaceHandle)
        ensures
            h.weak().target() is None,
            h.ptr() == 0,
            h.role_state() is None,
    {
        XdgV6ShellSurfaceHandle::new()
    }
}

impl PartialEq for XdgV6ShellSurfaceHandle {
    fn eq(&self, other: &XdgV6ShellSurfaceHandle) -> (r: bool)
        ensures
            r == (self.ptr() == other.ptr()),
    {
        self.shell_surface == other.shell_surface
    }
}

impl vstd::std_specs::cmp::PartialEqSpecImpl for XdgV6ShellSurfaceHandle {
    open spec fn obeys_eq_spec() -> bool {
        true
    }

    open spec fn eq_spec(&self, other: &XdgV6ShellSurfaceHandle) -> bool {
        self.ptr() == other.ptr()
    }
}

impl Eq for XdgV6ShellSurfaceHandle {
}

/// Once the wrapper is released, `run` on any handle it gave fails with
/// `AlreadyDropped`, whatever the table held.
pub proof fn lemma_run_after_release(s: XdgV6ShellSurface, h: XdgV6ShellSurfaceHandle, tokens: Seq<TokenState>)
    requires
        h == s.handle_spec(),
    ensures
        upgrade_outcome(release_token(tokens, s.token_id()), h.weak()) == Err::<(), HandleErr>(HandleErr::AlreadyDropped),
{
    WeakRef::lemma_of_token(s.liveliness);
}

/// Every handle that `weak_reference` gives for one surface compares equal to
/// the others, names the surface's own token, and so upgrades exactly when
/// the others do.
pub proof fn lemma_weak_references_agree(s: XdgV6ShellSurface, h1: XdgV6ShellSurfaceHandle, h2: XdgV6ShellSurfaceHandle, tokens: Seq<TokenState>)
    requires
        h1 == s.handle_spec(),
        h2 == s.handle_spec(),
    ensures
        h1.ptr() == h2.ptr(),
        h1.weak().target() == Some(s.token_id()),
        h2.weak().target() == Some(s.token_id()),
        upgrade_outcome(tokens, h1.weak()) == upgrade_outcome(tokens, h2.weak()),
{
    WeakRef::lemma_of_token(s.liveliness);
}

/// Upgrading a handle and asking the lent wrapper for a weak reference gives
/// a handle that compares equal to the first and names the same token.
pub proof fn lemma_upgrade_round_trip(h: XdgV6ShellSurfaceHandle)
    requires
        h.weak().target() is Some,
    ensures
        h.upgraded().handle_spec().ptr() == h.ptr(),
        h.upgraded().handle_spec().weak() == h.weak(),
        h.upgraded().handle_spec() == h,
{
    WeakRef::lemma_round_trip(h.weak());
}

/// The handle rebuilt from a surface's user-data slot is the handle that
/// `weak_reference` gives for the surface.
pub proof fn lemma_slot_gives_weak_reference(s: XdgV6ShellSurface)
    ensures
        XdgV6ShellSurfaceHandle::of_slot(s.ptr(), s.slot_spec()) == s.handle_spec(),
{
}

} // verus!
