//! The items most users need, in one import.
pub use crate::handle::{Bundle, Identity, MutSelf, RefSelf, Table, Thin, ThinExt, ThinMut, ThinRef};
pub use crate::local_any::LocalAnySet;
pub use crate::ownership::{Mut, Own, Ownership, Ref, SpecialAssoc, SpecialParam};
pub use crate::stable_any::{StableAny, StableAnySendSet, StableAnySendSyncSet, StableAnySet};
pub use crate::stable_id::{StableTypeId, UUID};
