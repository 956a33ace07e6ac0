//! Brand-erasure: values tagged with a unique scope identity, an existential
//! wrapper that conceals which scope a value was built at, and a generator of
//! fresh scopes.
//!
//! A scope is an abstract identity, held only in ghost state: no run-time
//! value represents it. The generator hands out scopes no two of which are
//! ever equal, each witnessed by a possession token. A family ([`Branded`])
//! says which concrete values stand at which scope, and [`Erased`] owns one
//! instantiation of a family at a scope fixed at construction and concealed
//! afterwards: every operation on it preserves that one scope.

mod convenience;
pub mod erased;
pub mod laws;
pub mod ghost_token;
pub mod hkt;

pub use erased::Erased;
pub use hkt::Branded;
pub use hkt::HKTRef;
