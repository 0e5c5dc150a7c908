//! The ready-made dyn-compatible shim for [`Hash`](std::hash::Hash).

use vstd::prelude::*;

verus! {

/// A dyn-compatible shim for [`Hash`](std::hash::Hash).
///
/// Every `T: Hash` is a `DynHash`, and `dyn DynHash` implements `Hash`,
/// hashing like the underlying concrete value. Through the standard library's
/// `impl<T: ?Sized + Hash> Hash for Box<T>`, `Box<dyn DynHash>` and
/// `&dyn DynHash` hash the same way. The marker variants
/// (`dyn DynHash + Send` and the like) have no `Hash` impl here.
pub trait DynHash {
    /// Feed the value into a type-erased hasher, as `Hash::hash` would feed
    /// it into the concrete one. This is the machinery behind the `Hash`
    /// impl, not meant to be called directly.
    fn __dyn_shim_hash(&self, state: &mut dyn std::hash::Hasher);
}

/// Calls `std::hash::Hash::hash` on `value` with a reborrow of `state`: std
/// implements `Hasher` for `&mut H` by forwarding every write to `H`, so the
/// value is hashed into `state` itself. Nothing is stated of the hasher's
/// state afterwards: what a `Hash` impl writes is the implementor's own
/// business.
#[verifier::external_body]
fn hash_into<T: std::hash::Hash + ?Sized, H: std::hash::Hasher + ?Sized>(value: &T, state: &mut H) {
    let mut state = state;
    <T as std::hash::Hash>::hash(value, &mut state)
}

impl<T: std::hash::Hash> DynHash for T {
    fn __dyn_shim_hash(&self, state: &mut dyn std::hash::Hasher) {
        hash_into(self, state)
    }
}

impl std::hash::Hash for dyn DynHash {
    /// Hash the value behind the trait object through its vtable. The body
    /// only passes the hasher on, coerced to `&mut dyn Hasher`; it is trusted
    /// and states nothing.
    #[verifier::external_body]
    fn hash<H: std::hash::Hasher>(&self, state: &mut H) {
        <Self as DynHash>::__dyn_shim_hash(self, state)
    }
}

} // verus!
