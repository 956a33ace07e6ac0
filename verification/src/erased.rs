//! The existential wrapper: one family instantiation at a concealed scope.
//!
//! Concealment is a possession notion, not a secrecy one: the scope is
//! ghost, so no run-time value betrays it, and the contracts may still name
//! it — `scope()` — to state the load-bearing guarantee, that every
//! operation acts at the one scope fixed at construction. What callers must
//! supply in exchange is scope-polymorphism: continuations and transforms
//! valid at every possible scope, whose results do not depend on which
//! scope they met.

use vstd::prelude::*;

use crate::hkt::{Branded, Branded2, Branded2Wrap, Curried, Flattened};

verus! {

/// An existential wrapper: owns one instantiation of the family `T` at a
/// scope fixed when the wrapper was built and concealed afterwards.
///
/// The scope itself is ghost: no run-time value represents it, and no
/// operation ever hands it out. What the operations promise instead is that
/// they all act at that one scope: see [`Erased::map`].
pub struct Erased<T: Branded> {
    inner: T::This,
    brand: Ghost<nat>,
}

impl<T: Branded> Erased<T> {
    /// The concealed scope this value was built at.
    pub closed spec fn scope(self) -> nat {
        self.brand@
    }

    /// The owned instantiation of `T` at the concealed scope.
    pub closed spec fn value(self) -> T::This {
        self.inner
    }

    /// Validity: the owned value is a valid instantiation at the concealed
    /// scope.
    pub open spec fn inv(self) -> bool {
        T::wf(self.scope(), self.value())
    }

    /// Wraps a value, committing to conceal the scope it stands at.
    ///
    /// Purely a relabeling: the value is owned unchanged, and the wrapper
    /// records (as ghost state) a scope the value is valid at.
    pub fn new(inner: T::This) -> (r: Self)
        requires
            exists|s: nat| T::wf(s, inner),
        ensures
            r.value() == inner,
            r.inv(),
    {
        let ghost s: nat = choose|s: nat| T::wf(s, inner);
        Erased { inner, brand: Ghost(s) }
    }

    /// Wraps a value at a stated scope. Crate-private: callers outside the
    /// crate commit to a scope only through [`Erased::new`] or the
    /// scope-token generator.
    pub(crate) fn seal_at(inner: T::This, Ghost(s): Ghost<nat>) -> (r: Self)
        requires
            T::wf(s, inner),
        ensures
            r.value() == inner,
            r.scope() == s,
    {
        Erased { inner, brand: Ghost(s) }
    }

    /// Surrenders the owned value and the concealed scope. Crate-private:
    /// from outside the crate the value leaves only through the
    /// scope-polymorphic continuations.
    pub(crate) fn unseal(self) -> (r: (T::This, Ghost<nat>))
        ensures
            r.0 == self.value(),
            r.1@ == self.scope(),
    {
        let Erased { inner, brand } = self;
        (inner, brand)
    }

    /// Transforms the owned value while keeping it erased, possibly changing
    /// family.
    ///
    /// The transform must be valid for every possible scope: at each scope
    /// `s` it must accept every valid instantiation of `T` at `s`, and what
    /// it returns must be a valid instantiation of `U` at that same `s`.
    /// In return, the result stands at exactly the scope of `self`: the
    /// concealed scope is never split, duplicated or exchanged.
    pub fn map<U: Branded, F: FnOnce(T::This) -> U::This>(self, f: F) -> (r: Erased<U>)
        requires
            self.inv(),
            forall|s: nat, x: T::This| T::wf(s, x) ==> call_requires(f, (x,)),
            forall|s: nat, x: T::This, y: U::This|
                T::wf(s, x) && call_ensures(f, (x,), y) ==> U::wf(s, y),
        ensures
            r.scope() == self.scope(),
            call_ensures(f, (self.value(),), r.value()),
            r.inv(),
    {
        let Erased { inner, brand } = self;
        Erased { inner: f(inner), brand }
    }

    /// Calls `f` with shared access to the owned value and returns its
    /// result.
    ///
    /// The continuation must accept every valid instantiation of `T` at
    /// every possible scope, and its result type does not depend on which
    /// scope it received: the scope cannot escape through it.
    pub fn borrow<Y, F: FnOnce(&T::This) -> Y>(&self, f: F) -> (r: Y)
        requires
            self.inv(),
            forall|s: nat, x: &T::This| T::wf(s, *x) ==> call_requires(f, (x,)),
        ensures
            call_ensures(f, (&self.value(),), r),
    {
        f(&self.inner)
    }

    /// Calls `f` with exclusive access to the owned value and returns its
    /// result.
    ///
    /// As with [`Erased::borrow`], the continuation must accept every valid
    /// instantiation of `T` at every possible scope, and whatever it leaves
    /// behind must again be valid at that same scope; its result type does
    /// not depend on which scope it received. The concealed scope itself is
    /// untouched.
    pub fn borrow_mut_hkt<Y, F: FnOnce(&mut T::This) -> Y>(&mut self, f: F) -> (r: Y)
        requires
            old(self).inv(),
            forall|s: nat, x: &mut T::This| T::wf(s, *x) ==> call_requires(f, (x,)),
            forall|s: nat, x: &mut T::This, y: Y|
                T::wf(s, *x) && call_ensures(f, (x,), y) ==> T::wf(s, *final(x)),
        ensures
            final(self).scope() == old(self).scope(),
            final(self).inv(),
            exists|x: &mut T::This|
                *x == old(self).value() && *final(x) == final(self).value()
                    && #[trigger] call_ensures(f, (x,), r),
    {
        f(&mut self.inner)
    }
}

impl<T: Branded2> Erased<Curried<T>> {
    /// Combines two layers of erasure, forcing both scope slots of `T` to
    /// be the outer scope.
    ///
    /// Identifying two scopes is the one operation that is not valid
    /// unconditionally: it must not make two distinct instances of the same
    /// singleton kind — one per scope — indistinguishable. Here that
    /// obligation is the stated precondition: the carried value must be a
    /// valid instantiation of `T` with both slots at the outer scope, so
    /// every call site is audited by the verifier rather than by hand.
    pub fn flatten(self) -> (r: Erased<Flattened<T>>)
        requires
            self.inv(),
            T::wf2(self.scope(), self.scope(), self.value().value().1),
        ensures
            r.scope() == self.scope(),
            r.value() == self.value().value().1,
            r.inv(),
    {
        let (inner_erased, s1) = self.unseal();
        let (pair, _s2) = inner_erased.unseal();
        let (_first, v) = pair;
        Erased::seal_at(v, s1)
    }
}

/// The pair construction at the value level: two erased values become one
/// two-layer existential over the product family, the outer layer holding
/// `a`'s scope, the inner layer concealing `b`'s.
pub fn pair_erased<A: Branded, B: Branded>(a: Erased<A>, b: Erased<B>) -> (r: Erased<
    Curried<(A, B)>,
>)
    requires
        a.inv(),
        b.inv(),
    ensures
        r.scope() == a.scope(),
        r.value().scope() == b.scope(),
        r.value().value().1 == (a.value(), b.value()),
        r.inv(),
{
    let (av, ga) = a.unseal();
    let (bv, gb) = b.unseal();
    let inner: Erased<Branded2Wrap<(A, B)>> = Erased::seal_at((Ghost(ga@), (av, bv)), gb);
    Erased::seal_at(inner, ga)
}

} // verus!
