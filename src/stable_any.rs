use vstd::prelude::*;
use crate::handle::{Bundle, Identity, Table, Thin, ThinExt};
use crate::ownership::{Own, SpecialAssoc};
use crate::sealed::Sealed;
use crate::stable_id::{StableTypeId, UUID};

verus! {

/// A value whose type has a build-stable identity.
pub trait StableAny: Sealed {
    /// The identity of the type itself.
    spec fn spec_type_identity() -> StableTypeId where Self: Sized;

    /// Computes the identity of the type itself.
    fn type_identity() -> (r: StableTypeId) where Self: Sized
        ensures
            r == Self::spec_type_identity(),
    ;

    /// The identity of what the value holds: for a registered type, its own.
    spec fn spec_stable_type_id(&self) -> StableTypeId;

    /// The stable identity of what the value holds: for a handle, the held value's type.
    fn stable_type_id(&self) -> (r: StableTypeId)
        ensures
            r == self.spec_stable_type_id(),
    ;
}

/// The capability set of handles that downcast by stable identity: any value of
/// a type with a stable identity can be held.
pub struct StableAnySet;

/// Names the capability set of stable handles whose values may also be sent to
/// another thread.
pub struct StableAnySendSet;

/// Names the capability set of stable handles whose values may also be sent to and
/// shared with other threads.
pub struct StableAnySendSyncSet;

impl<T: UUID> Sealed for T {}

impl Sealed for Thin<StableAnySet> {}

impl Sealed for Thin<StableAnySendSet> {}

impl Sealed for Thin<StableAnySendSyncSet> {}

impl<T: UUID> StableAny for T {
    open spec fn spec_type_identity() -> StableTypeId {
        T::spec_uuid()
    }

    fn type_identity() -> (r: StableTypeId) {
        T::uuid()
    }

    open spec fn spec_stable_type_id(&self) -> StableTypeId {
        T::spec_uuid()
    }

    fn stable_type_id(&self) -> (r: StableTypeId) {
        T::uuid()
    }
}

impl SpecialAssoc for StableAnySet {
    type Kind = Own;

    type Slots = ();
}

impl SpecialAssoc for StableAnySendSet {
    type Kind = Own;

    type Slots = ();
}

impl SpecialAssoc for StableAnySendSyncSet {
    type Kind = Own;

    type Slots = ();
}

/// Fixed identities of the capability sets themselves, so that handles can be held
/// and downcast in turn. The thread-safe sets are registered too, though the value
/// region of this crate's handles is not itself thread-safe and no handle of
/// theirs is built here.
pub const STABLE_ANY_ID: u64 = 0xB3B4_E57F_BD6B_8818;

pub const STABLE_ANY_SEND_ID: u64 = 0x5B16_BCA8_6ABA_3C25;

pub const STABLE_ANY_SEND_SYNC_ID: u64 = 0xFDB2_A76E_12E2_D8D8;

impl UUID for StableAnySet {
    open spec fn spec_uuid() -> StableTypeId {
        StableTypeId(STABLE_ANY_ID)
    }

    fn uuid() -> (r: StableTypeId) {
        StableTypeId(STABLE_ANY_ID)
    }
}

impl UUID for StableAnySendSet {
    open spec fn spec_uuid() -> StableTypeId {
        StableTypeId(STABLE_ANY_SEND_ID)
    }

    fn uuid() -> (r: StableTypeId) {
        StableTypeId(STABLE_ANY_SEND_ID)
    }
}

impl UUID for StableAnySendSyncSet {
    open spec fn spec_uuid() -> StableTypeId {
        StableTypeId(STABLE_ANY_SEND_SYNC_ID)
    }

    fn uuid() -> (r: StableTypeId) {
        StableTypeId(STABLE_ANY_SEND_SYNC_ID)
    }
}

/// The identity a table records, or `own` where it records none.
pub open spec fn held_or(identity: Identity, own: StableTypeId) -> StableTypeId {
    match identity {
        Identity::Stable(id) => id,
        Identity::Local => own,
    }
}

/// A handle type is identified by its capability set; what a stable handle holds
/// is identified by its table, and a handle whose table records no stable identity
/// reports its own.
impl StableAny for Thin<StableAnySet> {
    open spec fn spec_type_identity() -> StableTypeId {
        <StableAnySet as UUID>::spec_uuid()
    }

    fn type_identity() -> (r: StableTypeId) {
        <StableAnySet as UUID>::uuid()
    }

    open spec fn spec_stable_type_id(&self) -> StableTypeId {
        held_or(self@.identity, <StableAnySet as UUID>::spec_uuid())
    }

    fn stable_type_id(&self) -> (r: StableTypeId) {
        match self.table().identity {
            Identity::Stable(id) => id,
            Identity::Local => <StableAnySet as UUID>::uuid(),
        }
    }
}

impl StableAny for Thin<StableAnySendSet> {
    open spec fn spec_type_identity() -> StableTypeId {
        <StableAnySendSet as UUID>::spec_uuid()
    }

    fn type_identity() -> (r: StableTypeId) {
        <StableAnySendSet as UUID>::uuid()
    }

    open spec fn spec_stable_type_id(&self) -> StableTypeId {
        held_or(self@.identity, <StableAnySendSet as UUID>::spec_uuid())
    }

    fn stable_type_id(&self) -> (r: StableTypeId) {
        match self.table().identity {
            Identity::Stable(id) => id,
            Identity::Local => <StableAnySendSet as UUID>::uuid(),
        }
    }
}

impl StableAny for Thin<StableAnySendSyncSet> {
    open spec fn spec_type_identity() -> StableTypeId {
        <StableAnySendSyncSet as UUID>::spec_uuid()
    }

    fn type_identity() -> (r: StableTypeId) {
        <StableAnySendSyncSet as UUID>::uuid()
    }

    open spec fn spec_stable_type_id(&self) -> StableTypeId {
        held_or(self@.identity, <StableAnySendSyncSet as UUID>::spec_uuid())
    }

    fn stable_type_id(&self) -> (r: StableTypeId) {
        match self.table().identity {
            Identity::Stable(id) => id,
            Identity::Local => <StableAnySendSyncSet as UUID>::uuid(),
        }
    }
}

impl<K: StableAny + 'static> ThinExt<StableAnySet, K> for Thin<StableAnySet> {
    open spec fn spec_identity() -> Identity {
        Identity::Stable(K::spec_type_identity())
    }

    fn new(val: K) -> (r: Thin<StableAnySet>) {
        let id = K::type_identity();
        Thin::from_raw(Bundle::new(Table { identity: Identity::Stable(id), slots: () }, val))
    }
}

/// A stable handle built from a value of type `V` carries `V`'s identity, so the
/// check made before every stable downcast to `V` passes, and the check for any
/// type `U` registered under another identity fails: a downcast to such a `U`
/// returns `None`.
pub proof fn lemma_stable_downcast_check<V: StableAny + 'static, U: StableAny>()
    ensures
        <Thin<StableAnySet> as ThinExt<StableAnySet, V>>::spec_identity() == Identity::Stable(
            V::spec_type_identity(),
        ),
        U::spec_type_identity() != V::spec_type_identity() ==> <Thin<StableAnySet> as ThinExt<
            StableAnySet,
            V,
        >>::spec_identity() != Identity::Stable(U::spec_type_identity()),
{
}

impl StableTypeId {
    /// The stable identity of the type `T`.
    pub fn of<T: StableAny>() -> (r: StableTypeId)
        ensures
            r == T::spec_type_identity(),
    {
        T::type_identity()
    }
}

impl Thin<StableAnySet> {
    /// The stable identity of the held value's type, as the table records it.
    pub fn contained_type_id(&self) -> (r: Option<StableTypeId>)
        ensures
            r == match self@.identity {
                Identity::Stable(id) => Some(id),
                Identity::Local => None,
            },
    {
        match self.table().identity {
            Identity::Stable(id) => Some(id),
            Identity::Local => None,
        }
    }

    /// Whether the held value's type has the stable identity of `V`.
    pub fn stable_is<V: StableAny>(&self) -> (r: bool)
        ensures
            r == (self@.identity == Identity::Stable(V::spec_type_identity())),
    {
        self.bundle().stable_is::<V>()
    }

    /// Consumes the handle and returns the value when its identity is that of `V`.
    /// On a mismatch the result is `None` and, since the handle is consumed, the
    /// value is dropped with it; `stable_is` or `downcast_ref` test without that.
    ///
    /// Two types registered under one identity (a 64-bit hash collision, or a
    /// registration written by hand) both pass the identity check. Such a
    /// collision is not detected as such: std's type test in the value region then
    /// makes the result `None` rather than a misread value.
    pub fn downcast<V: StableAny + 'static>(self) -> (r: Option<V>)
        ensures
            self@.identity != Identity::Stable(V::spec_type_identity()) ==> r is None,
    {
        self.into_bundle().take_stable::<V>()
    }

    /// A reference to the value when its identity is that of `V`.
    pub fn downcast_ref<V: StableAny + 'static>(&self) -> (r: Option<&V>)
        ensures
            self@.identity != Identity::Stable(V::spec_type_identity()) ==> r is None,
    {
        self.bundle().stable_ref::<V>()
    }

    /// A mutable reference to the value when its identity is that of `V`; the
    /// table stays as it is.
    pub fn downcast_mut<V: StableAny + 'static>(&mut self) -> (r: Option<&mut V>)
        ensures
            old(self)@.identity != Identity::Stable(V::spec_type_identity()) ==> r is None,
            final(self)@ == old(self)@,
    {
        self.bundle_mut().stable_mut::<V>()
    }
}

} // verus!
