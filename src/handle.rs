use vstd::prelude::*;
use crate::ownership::{Mut, Own, Ownership, Ref, SpecialAssoc, SpecialParam};
use crate::payload::Payload;
use crate::stable_any::StableAny;
use crate::stable_id::StableTypeId;

verus! {

/// Which identity scheme a dispatch table carries.
#[derive(PartialEq, Eq, Structural, Clone, Copy, Debug)]
pub enum Identity {
    /// Process-local: the value region records its own type, meaningful only
    /// within this binary.
    Local,
    /// Build-stable: the registered identity of the value's type.
    Stable(StableTypeId),
}

/// A dispatch table: the identity first, then the method slots of a capability set.
/// It is fixed when the bundle is built.
pub struct Table<S> {
    pub identity: Identity,
    pub slots: S,
}

/// The record a handle points at: the dispatch table first, then the value region.
/// The table is fixed when the bundle is built: no method changes it.
pub struct Bundle<S> {
    table: Table<S>,
    value: Payload,
}

impl<S> View for Bundle<S> {
    type V = Table<S>;

    closed spec fn view(&self) -> Table<S> {
        self.table
    }
}

impl<S> Bundle<S> {
    /// The dispatch table.
    pub fn table(&self) -> (r: &Table<S>)
        ensures
            *r == self@,
    {
        &self.table
    }

    /// Bundles a value with its table.
    pub fn new<V: 'static>(table: Table<S>, value: V) -> (r: Bundle<S>)
        ensures
            r@ == table,
    {
        Bundle { table, value: Payload::new(value) }
    }

    /// Whether the table carries the local scheme and the value is a `V`.
    pub fn local_is<V: 'static>(&self) -> (r: bool)
        ensures
            r ==> self@.identity == Identity::Local,
    {
        match self.table.identity {
            Identity::Local => self.value.is::<V>(),
            Identity::Stable(_) => false,
        }
    }

    /// Whether the table carries the stable identity of `V`.
    pub fn stable_is<V: StableAny>(&self) -> (r: bool)
        ensures
            r == (self@.identity == Identity::Stable(V::spec_type_identity())),
    {
        let id = V::type_identity();
        self.table.identity == Identity::Stable(id)
    }

    /// The value, when the local scheme finds a `V`; otherwise `None`, and the
    /// bundle is dropped.
    pub fn take_local<V: 'static>(self) -> (r: Option<V>)
        ensures
            r is Some ==> self@.identity == Identity::Local,
    {
        if self.local_is::<V>() {
            self.value.take::<V>()
        } else {
            None
        }
    }

    /// The value, when the table carries the stable identity of `V`; otherwise
    /// `None`, and the bundle is dropped.
    pub fn take_stable<V: StableAny + 'static>(self) -> (r: Option<V>)
        ensures
            self@.identity != Identity::Stable(V::spec_type_identity()) ==> r is None,
    {
        if self.stable_is::<V>() {
            self.value.take::<V>()
        } else {
            None
        }
    }

    /// A reference to the value, when the local scheme finds a `V`.
    pub fn local_ref<V: 'static>(&self) -> (r: Option<&V>)
        ensures
            r is Some ==> self@.identity == Identity::Local,
    {
        if self.local_is::<V>() {
            self.value.get_ref::<V>()
        } else {
            None
        }
    }

    /// A reference to the value, when the table carries the stable identity of `V`.
    pub fn stable_ref<V: StableAny + 'static>(&self) -> (r: Option<&V>)
        ensures
            self@.identity != Identity::Stable(V::spec_type_identity()) ==> r is None,
    {
        if self.stable_is::<V>() {
            self.value.get_ref::<V>()
        } else {
            None
        }
    }

    /// A mutable reference to the value, when the local scheme finds a `V`. The
    /// table is left as it was.
    pub fn local_mut<V: 'static>(&mut self) -> (r: Option<&mut V>)
        ensures
            r is Some ==> old(self)@.identity == Identity::Local,
            final(self)@ == old(self)@,
    {
        if self.local_is::<V>() {
            self.value.get_mut::<V>()
        } else {
            None
        }
    }

    /// A mutable reference to the value, when the table carries the stable
    /// identity of `V`. The table is left as it was.
    pub fn stable_mut<V: StableAny + 'static>(&mut self) -> (r: Option<&mut V>)
        ensures
            old(self)@.identity != Identity::Stable(V::spec_type_identity()) ==> r is None,
            final(self)@ == old(self)@,
    {
        if self.stable_is::<V>() {
            self.value.get_mut::<V>()
        } else {
            None
        }
    }
}

/// A one-word handle that owns a bundle: the value behind it is known only by the
/// capability set `T`. Dropping it drops the value once and frees the allocation.
pub struct Thin<T: ?Sized + SpecialAssoc> {
    bundle: Box<Bundle<T::Slots>>,
    marker: core::marker::PhantomData<T>,
}

/// A one-word handle that shares the bundle of an owning `Thin` without owning it.
pub struct ThinRef<'a, T: ?Sized + SpecialAssoc> {
    bundle: &'a Bundle<T::Slots>,
    marker: core::marker::PhantomData<T>,
}

/// A one-word handle that borrows the bundle of an owning `Thin` mutably without
/// owning it.
pub struct ThinMut<'a, T: ?Sized + SpecialAssoc> {
    bundle: &'a mut Bundle<T::Slots>,
    marker: core::marker::PhantomData<T>,
}

/// Builds an owning handle of capability set `U` from a value of type `T`.
pub trait ThinExt<U: ?Sized + SpecialAssoc, T> {
    /// The identity that the table of a handle so built carries; by default the
    /// local scheme.
    open spec fn spec_identity() -> Identity {
        Identity::Local
    }

    /// Creates a new handle from the given value.
    fn new(val: T) -> (r: Thin<U>)
        ensures
            r@.identity == Self::spec_identity(),
    ;
}

impl<T: ?Sized + SpecialAssoc> View for Thin<T> {
    type V = Table<T::Slots>;

    closed spec fn view(&self) -> Table<T::Slots> {
        self.bundle.table
    }
}

impl<'a, T: ?Sized + SpecialAssoc> View for ThinRef<'a, T> {
    type V = Table<T::Slots>;

    closed spec fn view(&self) -> Table<T::Slots> {
        self.bundle.table
    }
}

impl<'a, T: ?Sized + SpecialAssoc> View for ThinMut<'a, T> {
    type V = Table<T::Slots>;

    closed spec fn view(&self) -> Table<T::Slots> {
        self.bundle.table
    }
}

impl<T: ?Sized + SpecialAssoc> Thin<T> {
    /// Takes ownership of a freshly built bundle.
    pub fn from_raw(bundle: Bundle<T::Slots>) -> (r: Thin<T>)
        ensures
            r@ == bundle@,
    {
        Thin { bundle: Box::new(bundle), marker: core::marker::PhantomData }
    }

    /// The dispatch table.
    pub fn table(&self) -> (r: &Table<T::Slots>)
        ensures
            *r == self@,
    {
        &self.bundle.table
    }

    /// The bundle behind the handle.
    pub fn bundle(&self) -> (r: &Bundle<T::Slots>)
        ensures
            r@ == self@,
    {
        &self.bundle
    }

    /// The bundle behind the handle, mutably; its table stays as it is.
    pub(crate) fn bundle_mut(&mut self) -> (r: &mut Bundle<T::Slots>)
        ensures
            r@ == old(self)@,
            final(self)@ == final(r)@,
    {
        &mut self.bundle
    }

    /// Gives the bundle back, ending the handle without dropping the value.
    pub fn into_bundle(self) -> (r: Bundle<T::Slots>)
        ensures
            r@ == self@,
    {
        *self.bundle
    }

    /// The handle's ownership variant.
    pub fn ownership(&self) -> (r: Ownership)
        ensures
            r == Ownership::Owned,
    {
        <T as SpecialParam<Own>>::ownership()
    }

    /// A shared view of the same bundle.
    pub fn as_ref(&self) -> (r: ThinRef<'_, T>)
        ensures
            r@ == self@,
    {
        ThinRef { bundle: &self.bundle, marker: core::marker::PhantomData }
    }

    /// A mutable view of the same bundle.
    pub fn as_mut(&mut self) -> (r: ThinMut<'_, T>)
        ensures
            r@ == old(self)@,
    {
        ThinMut { bundle: &mut self.bundle, marker: core::marker::PhantomData }
    }
}

impl<'a, T: ?Sized + SpecialAssoc + 'a> ThinRef<'a, T> {
    /// The dispatch table.
    pub fn table(&self) -> (r: &'a Table<T::Slots>)
        ensures
            *r == self@,
    {
        &self.bundle.table
    }

    /// The bundle behind the handle.
    pub fn bundle(&self) -> (r: &'a Bundle<T::Slots>)
        ensures
            r@ == self@,
    {
        self.bundle
    }

    /// The handle's ownership variant.
    pub fn ownership(&self) -> (r: Ownership)
        ensures
            r == Ownership::RefView,
    {
        <&'a T as SpecialParam<Ref>>::ownership()
    }

    /// Another shared view of the same bundle.
    pub fn copy(&self) -> (r: ThinRef<'a, T>)
        ensures
            r@ == self@,
    {
        ThinRef { bundle: self.bundle, marker: core::marker::PhantomData }
    }

    /// The erased receiver for an immutable method.
    pub fn receiver(&self) -> (r: RefSelf<'a, T::Slots>)
        ensures
            r@ == self@,
    {
        RefSelf { bundle: self.bundle }
    }
}

impl<'a, T: ?Sized + SpecialAssoc + 'a> ThinMut<'a, T> {
    /// The dispatch table.
    pub fn table(&self) -> (r: &Table<T::Slots>)
        ensures
            *r == self@,
    {
        &self.bundle.table
    }

    /// The bundle behind the handle.
    pub fn bundle(&self) -> (r: &Bundle<T::Slots>)
        ensures
            r@ == self@,
    {
        self.bundle
    }

    /// The bundle behind the handle, mutably; its table stays as it is.
    pub(crate) fn bundle_mut(&mut self) -> (r: &mut Bundle<T::Slots>)
        ensures
            r@ == old(self)@,
            final(self)@ == final(r)@,
    {
        self.bundle
    }

    /// The handle's ownership variant.
    pub fn ownership(&self) -> (r: Ownership)
        ensures
            r == Ownership::MutView,
    {
        <&'a mut T as SpecialParam<Mut>>::ownership()
    }

    /// The erased receiver for an immutable method.
    pub fn receiver(&self) -> (r: RefSelf<'_, T::Slots>)
        ensures
            r@ == self@,
    {
        RefSelf { bundle: self.bundle }
    }

    /// The erased receiver for a mutable method.
    pub fn receiver_mut(&mut self) -> (r: MutSelf<'_, T::Slots>)
        ensures
            r@ == old(self)@,
            final(self)@ == final(r.bundle)@,
    {
        MutSelf { bundle: self.bundle }
    }
}

/// The erased receiver of an immutable method: one address, whatever the
/// concrete type behind it.
pub struct RefSelf<'a, S> {
    pub bundle: &'a Bundle<S>,
}

/// The erased receiver of a mutable method: one address, whatever the concrete
/// type behind it.
pub struct MutSelf<'a, S> {
    /// A bundle's table cannot be edited in place, as `Bundle`'s fields are
    /// private. A whole new bundle can still be assigned through this reference;
    /// `MutSelf::new` states that the owner then has that bundle's table.
    pub bundle: &'a mut Bundle<S>,
}

impl<'a, S> View for RefSelf<'a, S> {
    type V = Table<S>;

    open spec fn view(&self) -> Table<S> {
        self.bundle@
    }
}

impl<'a, S> View for MutSelf<'a, S> {
    type V = Table<S>;

    open spec fn view(&self) -> Table<S> {
        self.bundle@
    }
}

impl<'a, S> RefSelf<'a, S> {
    /// Erases the receiver of an immutable method called on an owning handle.
    pub fn new<T: ?Sized + SpecialAssoc<Slots = S>>(thin: &'a Thin<T>) -> (r: RefSelf<'a, S>)
        ensures
            r@ == thin@,
    {
        RefSelf { bundle: &thin.bundle }
    }

    /// Recovers the typed receiver, when the value is a `V`.
    pub fn value<V: 'static>(self) -> (r: Option<&'a V>) {
        self.bundle.value.get_ref::<V>()
    }
}

impl<'a, S> MutSelf<'a, S> {
    /// Erases the receiver of a mutable method called on an owning handle. The
    /// owner's table is, once the receiver is done, whatever the receiver left.
    pub fn new<T: ?Sized + SpecialAssoc<Slots = S>>(thin: &'a mut Thin<T>) -> (r: MutSelf<'a, S>)
        ensures
            r@ == old(thin)@,
            final(thin)@ == final(r.bundle)@,
    {
        MutSelf { bundle: &mut thin.bundle }
    }

    /// Recovers the typed receiver, when the value is a `V`; the table is left as
    /// it was.
    pub fn value<V: 'static>(self) -> (r: Option<&'a mut V>)
        ensures
            final(self.bundle)@ == old(self.bundle)@,
    {
        self.bundle.value.get_mut::<V>()
    }
}

} // verus!
