//! The liveliness table: one token per wrapped native object.
//!
//! A token is created live and unborrowed when an owned wrapper is made for a
//! native object, and is released for good when that wrapper goes away. Weak
//! references name a token and never keep it alive: upgrading one re-validates
//! the token each time. At most one borrow of a token is active at a time.
use vstd::prelude::*;

verus! {

/// Why a handle could not be used.
#[derive(Debug, Clone, Copy, PartialEq, Eq, Structural)]
pub enum HandleErr {
    /// The object the handle refers to has been destroyed.
    AlreadyDropped,
    /// The object is already borrowed by an enclosing `run`.
    AlreadyBorrowed,
}

pub type HandleResult<T> = Result<T, HandleErr>;

/// The state of one token.
#[derive(Debug, Clone, Copy, PartialEq, Eq, Structural)]
pub struct TokenState {
    /// The owned wrapper has not been released yet.
    pub live: bool,
    /// A borrow of the wrapper is active.
    pub borrowed: bool,
}

/// The strong side of a token, held by the owned wrapper of a native object.
///
/// A token lent to a runner by `run` is marked as lent: releasing it does
/// nothing, since the wrapper that owns the token still exists.
#[derive(Debug)]
pub struct Token {
    id: usize,
    lent: bool,
}

/// A weak reference to a token; the empty one never upgrades.
#[derive(Debug, Clone, Copy, PartialEq, Eq, Structural)]
pub struct WeakRef {
    id: Option<usize>,
}

/// All tokens handed out so far; a token's id is its index.
#[derive(Debug)]
pub struct Liveliness {
    tokens: Vec<TokenState>,
}

impl Token {
    /// The index of this token in its table.
    pub closed spec fn id(&self) -> nat {
        self.id as nat
    }

    /// Whether this token was lent out by `run` rather than owned.
    pub closed spec fn is_lent(&self) -> bool {
        self.lent
    }

    /// Whether this token was lent out by `run` rather than owned.
    pub fn lent(&self) -> (r: bool)
        ensures
            r == self.is_lent(),
    {
        self.lent
    }

    /// The strong reference that upgrading `w` lends out.
    pub closed spec fn of_weak(w: WeakRef) -> Token {
        Token { id: match w.id { Some(i) => i, None => 0 }, lent: true }
    }

    /// What a strong reference lent out by `run` looks like.
    pub proof fn lemma_of_weak(w: WeakRef)
        ensures
            Token::of_weak(w).is_lent(),
            w.target() matches Some(i) ==> Token::of_weak(w).id() == i,
    {
    }

    /// A strong reference to the token `w` names, lent out while `w` is upgraded.
    pub(crate) fn from_weak(w: &WeakRef) -> (t: Token)
        ensures
            t == Token::of_weak(*w),
    {
        match w.id {
            Some(i) => Token { id: i, lent: true },
            None => Token { id: 0, lent: true },
        }
    }
}

impl WeakRef {
    /// The token this weak reference names, if any.
    pub closed spec fn target(&self) -> Option<nat> {
        match self.id {
            Some(i) => Some(i as nat),
            None => None,
        }
    }

    /// A weak reference that names no token.
    pub fn empty() -> (w: WeakRef)
        ensures
            w.target() is None,
    {
        WeakRef { id: None }
    }

    /// The weak reference that downgrading `t` gives.
    pub closed spec fn of_token(t: Token) -> WeakRef {
        WeakRef { id: Some(t.id) }
    }

    /// A weak reference to `t`'s token.
    pub fn from_token(t: &Token) -> (w: WeakRef)
        ensures
            w == WeakRef::of_token(*t),
            w.target() == Some(t.id()),
    {
        WeakRef { id: Some(t.id) }
    }

    /// Downgrading `t` gives a weak reference that names `t`'s token.
    pub proof fn lemma_of_token(t: Token)
        ensures
            WeakRef::of_token(t).target() == Some(t.id()),
    {
    }

    /// Upgrading a weak reference that names a token and downgrading again
    /// gives the same weak reference, and the lent token is the one it names.
    pub proof fn lemma_round_trip(w: WeakRef)
        requires
            w.target() is Some,
        ensures
            WeakRef::of_token(Token::of_weak(w)) == w,
            Some(Token::of_weak(w).id()) == w.target(),
    {
    }
}

/// The token state that a fresh owned wrapper starts with.
pub open spec fn fresh_token() -> TokenState {
    TokenState { live: true, borrowed: false }
}

/// What upgrading `w` against `tokens` gives: the token must exist, be live and
/// not be borrowed.
pub open spec fn upgrade_outcome(tokens: Seq<TokenState>, w: WeakRef) -> HandleResult<()> {
    match w.target() {
        None => Err(HandleErr::AlreadyDropped),
        Some(i) => if i < tokens.len() && tokens[i as int].live {
            if tokens[i as int].borrowed {
                Err(HandleErr::AlreadyBorrowed)
            } else {
                Ok(())
            }
        } else {
            Err(HandleErr::AlreadyDropped)
        },
    }
}

/// `tokens` with the token of `w` marked borrowed.
pub open spec fn lock_token(tokens: Seq<TokenState>, w: WeakRef) -> Seq<TokenState> {
    match w.target() {
        Some(i) if i < tokens.len() && tokens[i as int].live => tokens.update(i as int, TokenState { live: true, borrowed: true }),
        _ => tokens,
    }
}

/// `tokens` with the borrow of `w`'s token given back, if that token is still live.
pub open spec fn unlock_token(tokens: Seq<TokenState>, w: WeakRef) -> Seq<TokenState> {
    match w.target() {
        Some(i) if i < tokens.len() && tokens[i as int].live => tokens.update(i as int, fresh_token()),
        _ => tokens,
    }
}

/// `tokens` with token `id` released for good.
pub open spec fn release_token(tokens: Seq<TokenState>, id: nat) -> Seq<TokenState> {
    if id < tokens.len() {
        tokens.update(id as int, TokenState { live: false, borrowed: false })
    } else {
        tokens
    }
}

impl View for Liveliness {
    type V = Seq<TokenState>;

    closed spec fn view(&self) -> Seq<TokenState> {
        self.tokens@
    }
}

impl Liveliness {
    /// An empty table.
    pub fn new() -> (r: Liveliness)
        ensures
            r@ == Seq::<TokenState>::empty(),
    {
        Liveliness { tokens: Vec::new() }
    }

    /// A new live, unborrowed token, with the next free index.
    pub fn create(&mut self) -> (t: Token)
        ensures
            t.id() == old(self)@.len(),
            !t.is_lent(),
            final(self)@ == old(self)@.push(fresh_token()),
    {
        let id = self.tokens.len();
        self.tokens.push(TokenState { live: true, borrowed: false });
        Token { id, lent: false }
    }

    /// A weak reference to `t`'s token.
    pub fn downgrade(&self, t: &Token) -> (w: WeakRef)
        ensures
            w == WeakRef::of_token(*t),
            w.target() == Some(t.id()),
    {
        WeakRef::from_token(t)
    }

    /// The state of token `id`, if the table has it.
    pub fn state(&self, id: usize) -> (r: Option<TokenState>)
        ensures
            r == (if id < self@.len() { Some(self@[id as int]) } else { None::<TokenState> }),
    {
        if id < self.tokens.len() {
            Some(self.tokens[id])
        } else {
            None
        }
    }

    /// Whether `w` can be upgraded now, and why not.
    pub fn upgrade(&self, w: &WeakRef) -> (r: HandleResult<()>)
        ensures
            r == upgrade_outcome(self@, *w),
    {
        match w.id {
            None => Err(HandleErr::AlreadyDropped),
            Some(i) => {
                if i < self.tokens.len() && self.tokens[i].live {
                    if self.tokens[i].borrowed {
                        Err(HandleErr::AlreadyBorrowed)
                    } else {
                        Ok(())
                    }
                } else {
                    Err(HandleErr::AlreadyDropped)
                }
            },
        }
    }

    /// Borrows `w`'s token if it upgrades; otherwise changes nothing.
    pub(crate) fn try_lock(&mut self, w: &WeakRef) -> (r: HandleResult<()>)
        ensures
            r == upgrade_outcome(old(self)@, *w),
            final(self)@ == (if r is Ok { lock_token(old(self)@, *w) } else { old(self)@ }),
    {
        let r = self.upgrade(w);
        if r.is_ok() {
            let i = w.id.unwrap();
            self.tokens.set(i, TokenState { live: true, borrowed: true });
        }
        r
    }

    /// Gives back the borrow of `w`'s token, if the token is still live.
    pub(crate) fn unlock(&mut self, w: &WeakRef)
        ensures
            final(self)@ == unlock_token(old(self)@, *w),
    {
        if let Some(i) = w.id {
            if i < self.tokens.len() && self.tokens[i].live {
                self.tokens.set(i, TokenState { live: true, borrowed: false });
            }
        }
    }

    /// Releases `t`'s token for good: no weak reference to it upgrades again.
    /// A token lent out by `run` is not released.
    pub fn release(&mut self, t: Token)
        ensures
            final(self)@ == (if t.is_lent() { old(self)@ } else { release_token(old(self)@, t.id()) }),
    {
        if !t.lent && t.id < self.tokens.len() {
            self.tokens.set(t.id, TokenState { live: false, borrowed: false });
        }
    }

    /// Runs `runner` with `w`'s token borrowed and on `wrapper`, when `w`
    /// upgrades; the borrow is given back afterwards whatever the runner did.
    pub fn run_scoped<W, R, F: FnOnce(&mut Liveliness, &mut W) -> R>(
        &mut self,
        w: &WeakRef,
        wrapper: W,
        runner: F,
    ) -> (r: HandleResult<R>)
        requires
            forall|l: &mut Liveliness, o: &mut W| runner.requires((l, o)),
        ensures
            upgrade_outcome(old(self)@, *w) matches Err(e) ==> r == Err::<R, HandleErr>(e) && final(self)@ == old(self)@,
            upgrade_outcome(old(self)@, *w) is Ok ==> r is Ok && exists|l: &mut Liveliness, o: &mut W|
                l@ == lock_token(old(self)@, *w) && *o == wrapper && #[trigger] runner.ensures((l, o), r->Ok_0)
                    && final(self)@ == unlock_token(final(l)@, *w),
    {
        match self.try_lock(w) {
            Err(e) => Err(e),
            Ok(()) => {
                let mut wrapper = wrapper;
                let res = runner(self, &mut wrapper);
                self.unlock(w);
                let r = Ok(res);
                assert(r->Ok_0 == res);
                r
            },
        }
    }
}


/// Once a token is no longer live, no weak reference to it upgrades, and no
/// operation of the table makes it live again: `run` on any handle to it
/// fails with `AlreadyDropped` from then on.
pub proof fn lemma_dropped_stays_dropped(tokens: Seq<TokenState>, w: WeakRef, v: WeakRef, id: nat)
    requires
        w.target() matches Some(i) && i < tokens.len() && !tokens[i as int].live,
    ensures
        upgrade_outcome(tokens, w) == Err::<(), HandleErr>(HandleErr::AlreadyDropped),
        upgrade_outcome(tokens.push(fresh_token()), w) == Err::<(), HandleErr>(HandleErr::AlreadyDropped),
        upgrade_outcome(lock_token(tokens, v), w) == Err::<(), HandleErr>(HandleErr::AlreadyDropped),
        upgrade_outcome(unlock_token(tokens, v), w) == Err::<(), HandleErr>(HandleErr::AlreadyDropped),
        upgrade_outcome(release_token(tokens, id), w) == Err::<(), HandleErr>(HandleErr::AlreadyDropped),
{
}

/// Releasing a token makes every weak reference to it fail with
/// `AlreadyDropped`, whatever state the table was in.
pub proof fn lemma_release_drops(tokens: Seq<TokenState>, id: nat, w: WeakRef)
    requires
        w.target() == Some(id),
    ensures
        upgrade_outcome(release_token(tokens, id), w) == Err::<(), HandleErr>(HandleErr::AlreadyDropped),
{
}

/// Releasing one token leaves every weak reference to another token as it
/// was: destroying one object leaves the handles of the others usable.
pub proof fn lemma_release_keeps_others(tokens: Seq<TokenState>, id: nat, w: WeakRef)
    requires
        w.target() != Some(id),
    ensures
        upgrade_outcome(release_token(tokens, id), w) == upgrade_outcome(tokens, w),
        lock_token(release_token(tokens, id), w) == release_token(lock_token(tokens, w), id),
{
    match w.target() {
        Some(i) => {
            if i < tokens.len() && id < tokens.len() {
                assert(lock_token(release_token(tokens, id), w) =~= release_token(lock_token(tokens, w), id));
            }
        },
        None => {},
    }
}

/// While `w` is borrowed by a `run`, a nested `run` through `w` fails with
/// `AlreadyBorrowed` and leaves the table as it is, so the outer borrow stays
/// in place; giving the outer borrow back restores the table.
pub proof fn lemma_nested_run_refused(tokens: Seq<TokenState>, w: WeakRef)
    requires
        upgrade_outcome(tokens, w) is Ok,
    ensures
        upgrade_outcome(lock_token(tokens, w), w) == Err::<(), HandleErr>(HandleErr::AlreadyBorrowed),
        w.target() matches Some(i) && lock_token(tokens, w)[i as int] == (TokenState { live: true, borrowed: true }),
        unlock_token(lock_token(tokens, w), w) == tokens,
{
    let i = w.target()->Some_0;
    assert(unlock_token(lock_token(tokens, w), w) =~= tokens);
}

/// However the runner left the table, giving the borrow back leaves `w`'s
/// token unborrowed if it is still live.
pub proof fn lemma_borrow_given_back(tokens: Seq<TokenState>, w: WeakRef)
    requires
        w.target() matches Some(i) && i < tokens.len(),
    ensures
        w.target() matches Some(i) && (unlock_token(tokens, w)[i as int].live ==> !unlock_token(tokens, w)[i as int].borrowed),
        unlock_token(tokens, w).len() == tokens.len(),
{
}

} // verus!
