//! Fresh scopes, possession tokens, and the generator that issues them.
//!
//! The generator is the one source of scopes: each invocation issues a
//! scope distinct from every scope it ever issued, witnessed by a single,
//! uncloneable possession token. A token is either lent to a continuation
//! for the duration of one call, or sealed into an existential wrapper
//! beside data of the same scope; merging two sealed values destroys one
//! of the two tokens, so a scope never ends up with two witnesses.

use core::marker::PhantomData;
use vstd::prelude::*;

use crate::erased::Erased;
use crate::hkt::{Branded, Branded2, Branded2Wrap, Curried, Flattened};

verus! {

/// A possession token: a zero-content witness that its scope is live and
/// that the holder has unique, current possession of it.
///
/// The scope it witnesses is ghost: the token has no run-time
/// representation. Tokens cannot be cloned or forged, and only [`ScopeGen`]
/// creates them, each at a scope never issued before, so no two tokens ever
/// witness the same scope.
pub struct ScopeToken {
    brand: Ghost<nat>,
}

impl ScopeToken {
    /// The scope this token witnesses.
    pub closed spec fn scope(self) -> nat {
        self.brand@
    }
}

/// The family pairing a family `T` with a possession token of the common
/// scope: its instantiation at `s` is (`T`-at-`s`, token-witnessing-`s`).
pub struct WithGhostTokenBranded<T: Branded>(PhantomData<T>);

impl<T: Branded> Branded for WithGhostTokenBranded<T> {
    type This = (T::This, ScopeToken);

    open spec fn wf(s: nat, v: (T::This, ScopeToken)) -> bool {
        T::wf(s, v.0) && v.1.scope() == s
    }
}

/// An erased value bundling an instantiation of `T` with the possession
/// token of their common, concealed scope.
pub type WithGhostToken<T> = Erased<WithGhostTokenBranded<T>>;

/// The scope-token generator: manufactures scopes, no two of which are ever
/// equal, each witnessed by one possession token.
///
/// Its whole state is ghost — a bound below which every issued scope lies,
/// and the set of scopes issued so far — so a generator costs nothing at
/// run time.
pub struct ScopeGen {
    next: Ghost<nat>,
    issued: Ghost<Set<nat>>,
}

impl ScopeGen {
    /// The scopes this generator has issued so far.
    pub closed spec fn issued(self) -> Set<nat> {
        self.issued@
    }

    /// Validity: every issued scope lies below the ghost bound.
    pub closed spec fn inv(self) -> bool {
        forall|s: nat| self.issued@.contains(s) ==> s < self.next@
    }

    /// A new generator, with no scopes issued yet.
    pub fn new() -> (r: ScopeGen)
        ensures
            r.inv(),
            r.issued() == Set::<nat>::empty(),
    {
        ScopeGen { next: Ghost(0), issued: Ghost(Set::empty()) }
    }

    /// Creates the possession token of a scope never issued before, and
    /// records the scope as issued.
    fn fresh_token(&mut self) -> (t: ScopeToken)
        requires
            old(self).inv(),
        ensures
            final(self).inv(),
            !old(self).issued().contains(t.scope()),
            final(self).issued() == old(self).issued().insert(t.scope()),
    {
        let t = ScopeToken { brand: Ghost(self.next@) };
        self.issued = Ghost(self.issued@.insert(self.next@));
        self.next = Ghost(self.next@ + 1);
        t
    }

    /// Manufactures a fresh scope — distinct from every scope this
    /// generator ever issued — lends its possession token to `f`, and
    /// returns `f`'s scope-independent result.
    ///
    /// The token is lent, never given: nothing `f` can do lets the token
    /// outlive the call, so a continuation that tries to return the raw
    /// token is rejected by the borrow checker. When a freshly-scoped value
    /// is to survive the continuation, it must be sealed instead: see
    /// [`WithGhostToken::new_token`], [`WithGhostToken::new_with_token`]
    /// and [`Erased::from_ghost_token`], which own the token and seal it.
    pub fn with_fresh_scope<Y, F: FnOnce(&ScopeToken) -> Y>(&mut self, f: F) -> (r: Y)
        requires
            old(self).inv(),
            forall|t: &ScopeToken|
                !old(self).issued().contains(t.scope()) ==> call_requires(f, (t,)),
        ensures
            final(self).inv(),
            exists|t: &ScopeToken|
                !old(self).issued().contains(t.scope()) && final(self).issued() == old(
                    self,
                ).issued().insert(t.scope()) && #[trigger] call_ensures(f, (t,), r),
    {
        let t = self.fresh_token();
        f(&t)
    }
}

impl WithGhostToken<()> {
    /// Creates a fresh scope and seals its possession token, beside the
    /// unit value, directly into an existential wrapper, so callers can
    /// thread it through `map` and the borrows without writing a
    /// continuation.
    pub fn new_token(gen: &mut ScopeGen) -> (r: WithGhostToken<()>)
        requires
            old(gen).inv(),
        ensures
            final(gen).inv(),
            r.inv(),
            !old(gen).issued().contains(r.scope()),
            final(gen).issued() == old(gen).issued().insert(r.scope()),
    {
        let t = gen.fresh_token();
        let ghost s = t.scope();
        Erased::seal_at(((), t), Ghost(s))
    }
}

impl<T: Branded> Erased<T> {
    /// Creates a fresh scope, hands its possession token — by value, to be
    /// sealed into the result or destroyed — to `f`, and seals what `f`
    /// builds at that scope into an existential wrapper.
    pub fn from_ghost_token<F: FnOnce(ScopeToken) -> T::This>(gen: &mut ScopeGen, f: F) -> (r:
        Erased<T>)
        requires
            old(gen).inv(),
            forall|t: ScopeToken|
                !old(gen).issued().contains(t.scope()) ==> call_requires(f, (t,)),
            forall|t: ScopeToken, y: T::This|
                call_ensures(f, (t,), y) ==> T::wf(t.scope(), y),
        ensures
            final(gen).inv(),
            r.inv(),
            !old(gen).issued().contains(r.scope()),
            final(gen).issued() == old(gen).issued().insert(r.scope()),
            exists|t: ScopeToken|
                t.scope() == r.scope() && #[trigger] call_ensures(f, (t,), r.value()),
    {
        let t = gen.fresh_token();
        let ghost s = t.scope();
        let y = f(t);
        Erased::seal_at(y, Ghost(s))
    }
}

impl<T: Branded> WithGhostToken<T> {
    /// Creates a fresh scope, lends its possession token to `f` while `f`
    /// builds an instantiation of `T` at that scope, then seals value and
    /// token together into an existential wrapper.
    pub fn new_with_token<F: FnOnce(&ScopeToken) -> T::This>(gen: &mut ScopeGen, f: F) -> (r:
        WithGhostToken<T>)
        requires
            old(gen).inv(),
            forall|t: &ScopeToken|
                !old(gen).issued().contains(t.scope()) ==> call_requires(f, (t,)),
            forall|t: &ScopeToken, y: T::This|
                call_ensures(f, (t,), y) ==> T::wf(t.scope(), y),
        ensures
            final(gen).inv(),
            r.inv(),
            !old(gen).issued().contains(r.scope()),
            final(gen).issued() == old(gen).issued().insert(r.scope()),
            exists|t: &ScopeToken|
                t.scope() == r.scope() && #[trigger] call_ensures(f, (t,), r.value().0),
    {
        let t = gen.fresh_token();
        let ghost s = t.scope();
        let y = f(&t);
        Erased::seal_at((y, t), Ghost(s))
    }

    /// Merges two erased values into one two-scope value and identifies
    /// their scopes: the result stands at `other`'s scope, and the
    /// possession token of `self`'s scope is destroyed in exchange, so the
    /// merged scope keeps a single token at most — `other`'s, if it carried
    /// one.
    ///
    /// The payload carried beside `self`'s token must remain valid when
    /// re-read at `other`'s scope: that is the stated precondition, and it
    /// holds of every scope-invariant family.
    pub fn merge_tokens<U: Branded>(self, other: Erased<U>) -> (r: Erased<Flattened<(T, U)>>)
        requires
            self.inv(),
            other.inv(),
            T::wf(other.scope(), self.value().0),
        ensures
            r.scope() == other.scope(),
            r.value() == (self.value().0, other.value()),
            r.inv(),
    {
        let ghost s2 = other.scope();
        let (pair, g1) = self.unseal();
        let (data1, tok1) = pair;
        let (data2, _g2) = other.unseal();
        let inner: Erased<Branded2Wrap<(T, U)>> = Erased::seal_at(
            (Ghost(g1@), (data1, data2)),
            Ghost(s2),
        );
        let outer: WithGhostToken<Curried<(T, U)>> = Erased::seal_at((inner, tok1), g1);
        outer.flatten_ghost_tokens()
    }
}

impl<T: Branded2> WithGhostToken<Curried<T>> {
    /// Combines two scopes by removing the outer possession token: the
    /// outer scope's one singleton — its token — is destroyed, and the
    /// carried value is re-read with both scope slots at the inner scope.
    ///
    /// As with [`Erased::flatten`], identifying two scopes carries an
    /// obligation: the carried value must be a valid instantiation of `T`
    /// with both slots at the inner scope. It is the stated precondition,
    /// checked by the verifier at every call site.
    pub fn flatten_ghost_tokens(self) -> (r: Erased<Flattened<T>>)
        requires
            self.inv(),
            T::wf2(
                self.value().0.scope(),
                self.value().0.scope(),
                self.value().0.value().1,
            ),
        ensures
            r.scope() == self.value().0.scope(),
            r.value() == self.value().0.value().1,
            r.inv(),
    {
        let (pair, _g1) = self.unseal();
        let (inner_erased, _tok1) = pair;
        let ghost s2 = inner_erased.scope();
        let (iv, _g2) = inner_erased.unseal();
        let (_first, v) = iv;
        Erased::seal_at(v, Ghost(s2))
    }
}

} // verus!
