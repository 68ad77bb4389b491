//! Type-erased values behind a single pointer.
//!
//! A value and its dispatch table are bundled into one allocation, and a handle of
//! one machine word refers to it. One representation serves three ownership
//! variants: `Thin` owns the bundle and drops the value once; `ThinRef` and
//! `ThinMut` are views that never do. Two schemes recover the concrete type: the
//! local one (`LocalAnySet`), valid within one binary, and the stable one
//! (`StableAnySet`), whose identities are hashes over a type's registration and
//! agree across separately compiled builds.
pub mod handle;
pub mod local_any;
pub mod ownership;
pub mod payload;
pub mod prelude;
pub mod provided;
mod sealed;
pub mod stable_any;
pub mod stable_id;
