#![verifier::loop_isolation(false)]
//! Generation of dyn-compatible shim traits.
//!
//! Some traits are not dyn-compatible, so a mixed set of implementors cannot
//! live behind one `Box<dyn Trait>`. The shim attributes read the trait they
//! are applied to, build a second trait holding only the dyn-compatible
//! subset, and forward each call to the original; every implementor of the
//! source trait then works as a `dyn` shim. This crate computes what each
//! attribute expands to, from the attribute's arguments and the annotated
//! trait held as plain values, and ships the ready-made [`DynHash`] shim.

pub mod attribute;
pub mod bounds;
pub mod carrier;
pub mod dyn_hash;
pub mod emit;
pub mod erase;
pub mod expand;
pub mod forward;
pub mod model;
pub mod read;
pub mod reflexive;
pub mod render;
pub mod select;
pub mod text;
pub mod tokens;
pub mod visit;

pub use attribute::{dyn_shim, dyn_shim_bind, dyn_shim_foreign, dyn_shim_recognized, trait_object};
pub use dyn_hash::DynHash;
