use vstd::prelude::*;
use crate::handle::{Bundle, Identity, Table, Thin, ThinExt};
use crate::ownership::{Own, SpecialAssoc};

verus! {

/// The capability set of handles that downcast by process-local identity: any
/// `'static` value can be held, and its type is recognised only within the binary
/// that built the handle. No 64-bit tag is kept in the table for it: the value
/// region records the value's std `TypeId`, and that is what is compared.
pub struct LocalAnySet;

impl SpecialAssoc for LocalAnySet {
    type Kind = Own;

    type Slots = ();
}

impl<K: 'static> ThinExt<LocalAnySet, K> for Thin<LocalAnySet> {
    open spec fn spec_identity() -> Identity {
        Identity::Local
    }

    fn new(val: K) -> (r: Thin<LocalAnySet>) {
        Thin::from_raw(Bundle::new(Table { identity: Identity::Local, slots: () }, val))
    }
}

impl Thin<LocalAnySet> {
    /// Whether the held value is a `V`.
    pub fn is<V: 'static>(&self) -> (r: bool)
        ensures
            r ==> self@.identity == Identity::Local,
    {
        self.bundle().local_is::<V>()
    }

    /// Consumes the handle and returns the value when it is a `V`. Otherwise the
    /// result is `None` and, since the handle is consumed, the value is dropped with
    /// it; `is` or `downcast_ref` test without that.
    pub fn downcast<V: 'static>(self) -> (r: Option<V>)
        ensures
            r is Some ==> self@.identity == Identity::Local,
    {
        self.into_bundle().take_local::<V>()
    }

    /// A reference to the value when it is a `V`.
    pub fn downcast_ref<V: 'static>(&self) -> (r: Option<&V>)
        ensures
            r is Some ==> self@.identity == Identity::Local,
    {
        self.bundle().local_ref::<V>()
    }

    /// A mutable reference to the value when it is a `V`; the table stays as it is.
    pub fn downcast_mut<V: 'static>(&mut self) -> (r: Option<&mut V>)
        ensures
            r is Some ==> old(self)@.identity == Identity::Local,
            final(self)@ == old(self)@,
    {
        self.bundle_mut().local_mut::<V>()
    }
}

} // verus!
