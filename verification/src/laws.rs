//! The laws the library keeps, each stated as a verified function whose
//! contract is the law: scope distinctness, round-trip sealing, map
//! composition, flattening against manual unwrapping, and scope consistency
//! under merging.
//!
//! One guarantee has no law here because it is structural rather than
//! stated: a scope cannot escape the continuation that saw it.
//! [`ScopeGen::with_fresh_scope`] lends its token by shared reference, so a
//! continuation that tries to return the raw token — instead of a sealed
//! wrapper or a scope-independent result — does not type-check.

use vstd::prelude::*;

use crate::erased::Erased;
use crate::ghost_token::{ScopeGen, WithGhostToken, WithGhostTokenBranded};
use crate::hkt::{Branded, Branded2, Branded2Wrap, Curried, Flattened};

verus! {

/// Scope distinctness: two separate invocations of the scope generator
/// yield values whose concealed scopes are never equal — and neither equals
/// any scope the generator issued before — so nothing built at the one
/// scope can ever be taken for something built at the other.
pub fn scope_distinctness(gen: &mut ScopeGen) -> (r: (WithGhostToken<()>, WithGhostToken<()>))
    requires
        old(gen).inv(),
    ensures
        final(gen).inv(),
        r.0.scope() != r.1.scope(),
        !old(gen).issued().contains(r.0.scope()),
        !old(gen).issued().contains(r.1.scope()),
{
    let a = WithGhostToken::<()>::new_token(gen);
    let b = WithGhostToken::<()>::new_token(gen);
    (a, b)
}

/// Round-trip sealing: wrapping a value at a concealed scope and forwarding
/// it to an identity-shaped continuation yields the value back unchanged.
pub fn round_trip_sealing<T: Branded>(v: T::This) -> (r: T::This)
    requires
        exists|s: nat| T::wf(s, v),
    ensures
        r == v,
{
    let e = Erased::<T>::new(v);
    e.into_inner(
        |x: T::This| -> (y: T::This)
            ensures
                y == x
            { x },
    )
}

/// Map composition: transforming an erased value by `f` and then by `g` is
/// observationally equivalent to transforming it once by a composite `h`
/// that behaves as `g` after `f` — the results agree in scope and in value.
///
/// `f` and `g` must be scope-polymorphic transforms, as [`Erased::map`]
/// always demands, and deterministic, so that "the composition of `f` and
/// `g`" names one function.
pub fn map_composition<
    A: Branded,
    B: Branded,
    C: Branded,
    F: FnOnce(A::This) -> B::This,
    G: FnOnce(B::This) -> C::This,
    H: FnOnce(A::This) -> C::This,
>(e1: Erased<A>, e2: Erased<A>, f: F, g: G, h: H) -> (r: (Erased<C>, Erased<C>))
    requires
        e1 == e2,
        e1.inv(),
        forall|s: nat, x: A::This| A::wf(s, x) ==> call_requires(f, (x,)),
        forall|s: nat, x: A::This, y: B::This|
            A::wf(s, x) && call_ensures(f, (x,), y) ==> B::wf(s, y),
        forall|s: nat, y: B::This| B::wf(s, y) ==> call_requires(g, (y,)),
        forall|s: nat, y: B::This, z: C::This|
            B::wf(s, y) && call_ensures(g, (y,), z) ==> C::wf(s, z),
        forall|s: nat, x: A::This| A::wf(s, x) ==> call_requires(h, (x,)),
        forall|x: A::This, y1: B::This, y2: B::This|
            call_ensures(f, (x,), y1) && call_ensures(f, (x,), y2) ==> y1 == y2,
        forall|y: B::This, z1: C::This, z2: C::This|
            call_ensures(g, (y,), z1) && call_ensures(g, (y,), z2) ==> z1 == z2,
        forall|x: A::This, z: C::This| #[trigger]
            call_ensures(h, (x,), z) ==> exists|y: B::This|
                call_ensures(f, (x,), y) && #[trigger] call_ensures(g, (y,), z),
    ensures
        r.0.scope() == r.1.scope(),
        r.0.value() == r.1.value(),
{
    let ghost ev = e1.value();
    let m: Erased<B> = e1.map(f);
    let ghost mv = m.value();
    let r0: Erased<C> = m.map(g);
    proof {
        assert forall|s: nat, x: A::This, z: C::This|
            A::wf(s, x) && call_ensures(h, (x,), z) implies C::wf(s, z) by {
            let y = choose|y: B::This|
                call_ensures(f, (x,), y) && #[trigger] call_ensures(g, (y,), z);
            assert(B::wf(s, y));
        }
    }
    let r1: Erased<C> = e2.map(h);
    proof {
        let y = choose|y: B::This|
            call_ensures(f, (ev,), y) && #[trigger] call_ensures(g, (y,), r1.value());
        assert(y == mv);
    }
    (r0, r1)
}

/// Flattening agrees with manual unwrapping: on a two-layer value whose
/// carried instantiation is valid with both scope slots identified — the
/// case with no duplicated singleton capability — flattening and then
/// unwrapping yields exactly what unwrapping the two layers one by one
/// yields.
pub fn flatten_matches_unwrap<T: Branded2>(
    e1: Erased<Curried<T>>,
    e2: Erased<Curried<T>>,
) -> (r: (T::This2, T::This2))
    requires
        e1 == e2,
        e1.inv(),
        T::wf2(e1.scope(), e1.scope(), e1.value().value().1),
    ensures
        r.0 == r.1,
{
    let a = e1.flatten().into_inner(
        |x: T::This2| -> (y: T::This2)
            ensures
                y == x
            { x },
    );
    let b = e2.into_inner(
        |inner: Erased<Branded2Wrap<T>>| -> (y: T::This2)
            requires
                inner.inv(),
            ensures
                y == inner.value().1
            {
                inner.into_inner(
                    |p: (Ghost<nat>, T::This2)| -> (q: T::This2)
                        ensures
                            q == p.1
                        { p.1 },
                )
            },
    );
    (a, b)
}

/// Token uniqueness under nesting: generating two scopes in turn and
/// merging their sealed values along the two-scope flatten path yields one
/// value at one consistent scope — the later one — and the token that
/// survives the merge still witnesses exactly that scope, fit for any
/// scope-parameterized consumer.
pub fn merged_scope_consistency(gen: &mut ScopeGen) -> (r: Erased<
    Flattened<((), WithGhostTokenBranded<()>)>,
>)
    requires
        old(gen).inv(),
    ensures
        final(gen).inv(),
        r.inv(),
        !old(gen).issued().contains(r.scope()),
        r.value().1.1.scope() == r.scope(),
{
    let a = WithGhostToken::<()>::new_token(gen);
    let b = WithGhostToken::<()>::new_token(gen);
    a.merge_tokens(b)
}

} // verus!
