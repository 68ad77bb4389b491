use vstd::prelude::*;

verus! {

/// The value region of a bundle: one value of any `'static` type, whose type can be
/// tested and recovered. It holds a `Box<dyn core::any::Any>`; Verus cannot declare
/// that trait object, so the field is hidden, and each method below makes one call
/// into std's `Any`, which does the type test. Nothing here is said of which type
/// is held: the identity checks that guard a recovery are made on the table.
#[verifier::external_body]
pub struct Payload {
    inner: Box<dyn core::any::Any>,
}

impl Payload {
    /// Relies on `Box::new` and the unsizing to `Box<dyn Any>`: the value moves into
    /// one allocation that records its type.
    #[verifier::external_body]
    pub(crate) fn new<V: 'static>(value: V) -> (r: Payload) {
        Payload { inner: Box::new(value) }
    }

    /// Relies on `<dyn Any>::is`: whether the held value is a `V`.
    #[verifier::external_body]
    pub(crate) fn is<V: 'static>(&self) -> (r: bool) {
        self.inner.is::<V>()
    }

    /// Relies on `Box::<dyn Any>::downcast`: the held value when it is a `V`.
    #[verifier::external_body]
    pub(crate) fn take<V: 'static>(self) -> (r: Option<V>) {
        match self.inner.downcast::<V>() {
            Ok(b) => Some(*b),
            Err(_) => None,
        }
    }

    /// Relies on `<dyn Any>::downcast_ref`: the held value when it is a `V`.
    #[verifier::external_body]
    pub(crate) fn get_ref<V: 'static>(&self) -> (r: Option<&V>) {
        self.inner.downcast_ref::<V>()
    }

    /// Relies on `<dyn Any>::downcast_mut`: the held value when it is a `V`.
    #[verifier::external_body]
    pub(crate) fn get_mut<V: 'static>(&mut self) -> (r: Option<&mut V>) {
        self.inner.downcast_mut::<V>()
    }
}

} // verus!
