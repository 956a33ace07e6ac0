//! Convenience operation composed from the wrapper's primitives.

use vstd::prelude::*;

use crate::erased::Erased;
use crate::hkt::Branded;

verus! {

impl<T: Branded> Erased<T> {
    /// Consumes the wrapper and forwards the concealed value to `f`,
    /// returning `f`'s result.
    ///
    /// The continuation must accept every valid instantiation of `T` at
    /// every possible scope, and its result type does not depend on which
    /// scope it received: the scope cannot escape through it.
    pub fn into_inner<Y, F: FnOnce(T::This) -> Y>(self, f: F) -> (r: Y)
        requires
            self.inv(),
            forall|s: nat, x: T::This| T::wf(s, x) ==> call_requires(f, (x,)),
        ensures
            call_ensures(f, (self.value(),), r),
    {
        let (v, _s) = self.unseal();
        f(v)
    }
}

} // verus!
