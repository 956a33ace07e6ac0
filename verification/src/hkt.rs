//! Families: type constructors indexed by a scope.
//!
//! A scope is an abstract identity with no run-time representation; here it
//! is a ghost natural number, and a family pairs a concrete value type with
//! a predicate saying which values stand at which scope. One-scope families
//! ([`Branded`]), two-scope families ([`Branded2`]) with their product,
//! currying and flattening adapters, and the access-shape markers live
//! here.

use core::marker::PhantomData;
use vstd::prelude::*;

use crate::erased::Erased;

verus! {

/// A family: a mapping from a scope to a concrete type.
///
/// `This` is the concrete type an instantiation of the family has, and
/// `wf(s, v)` says whether the value `v` is a valid instantiation of the
/// family at scope `s`. A family whose `wf` ignores the scope is
/// scope-invariant: its values stand at every scope alike.
pub trait Branded {
    type This;

    /// Whether `v` is a valid instantiation of this family at scope `s`.
    spec fn wf(s: nat, v: Self::This) -> bool;
}

/// The trivial, scope-invariant family: its instantiation at every scope is
/// the unit value.
impl Branded for () {
    type This = ();

    open spec fn wf(s: nat, v: ()) -> bool {
        true
    }
}

/// A two-scope family: a mapping from an ordered pair of scopes to a
/// concrete type, with `wf2(s1, s2, v)` saying whether `v` is a valid
/// instantiation at the pair `(s1, s2)`.
pub trait Branded2 {
    type This2;

    /// Whether `v` is a valid instantiation of this family at `(s1, s2)`.
    spec fn wf2(s1: nat, s2: nat, v: Self::This2) -> bool;
}

/// The product construction: two ordinary families, paired, form a
/// two-scope family whose instantiation at `(s1, s2)` pairs their
/// independent instantiations.
impl<A: Branded, B: Branded> Branded2 for (A, B) {
    type This2 = (A::This, B::This);

    open spec fn wf2(s1: nat, s2: nat, v: (A::This, B::This)) -> bool {
        A::wf(s1, v.0) && B::wf(s2, v.1)
    }
}

/// Partially applied form of a two-scope family `T`: the first scope is
/// fixed — recorded as ghost state beside the value — and the family ranges
/// over the second scope.
pub struct Branded2Wrap<T: Branded2>(PhantomData<T>);

impl<T: Branded2> Branded for Branded2Wrap<T> {
    type This = (Ghost<nat>, T::This2);

    open spec fn wf(s2: nat, v: (Ghost<nat>, T::This2)) -> bool {
        T::wf2(v.0@, s2, v.1)
    }
}

/// A two-scope family viewed as an ordinary family over its first scope:
/// its instantiation at `s1` is an existential wrapper concealing the
/// second scope while the first stays fixed at `s1`.
pub struct Curried<T: Branded2>(PhantomData<T>);

impl<T: Branded2> Branded for Curried<T> {
    type This = Erased<Branded2Wrap<T>>;

    open spec fn wf(s1: nat, v: Erased<Branded2Wrap<T>>) -> bool {
        v.inv() && v.value().0@ == s1
    }
}

/// A two-scope family made an ordinary family by forcing both scope slots
/// to be the identical scope.
pub struct Flattened<T: Branded2>(PhantomData<T>);

impl<T: Branded2> Branded for Flattened<T> {
    type This = T::This2;

    open spec fn wf(s: nat, v: T::This2) -> bool {
        T::wf2(s, s, v)
    }
}

/// A shape of access to a value of some underlying type.
///
/// The markers below classify the three ways the wrapper's operations reach
/// the data they carry: shared, exclusive, and owned.
pub trait HKTRef {
    type This;
}

/// Marks shared access to a `T`.
pub struct Ref<T>(PhantomData<T>);

impl<T> HKTRef for Ref<T> {
    type This = T;
}

/// Marks exclusive access to a `T`.
pub struct Mut<T>(PhantomData<T>);

impl<T> HKTRef for Mut<T> {
    type This = T;
}

/// Marks ownership of a `T`.
pub struct Owned<T>(PhantomData<T>);

impl<T> HKTRef for Owned<T> {
    type This = T;
}

/// A plain owned payload is a scope-invariant family: its values stand at
/// every scope alike.
impl<T> Branded for Owned<T> {
    type This = T;

    open spec fn wf(s: nat, v: T) -> bool {
        true
    }
}

} // verus!
