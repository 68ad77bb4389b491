use std::cell::Cell;
use std::mem::size_of;
use std::rc::Rc;

use thin_trait_objects::handle::{Bundle, Identity, MutSelf, RefSelf, Table, Thin, ThinExt, ThinMut, ThinRef};
use thin_trait_objects::local_any::LocalAnySet;
use thin_trait_objects::ownership::{drop_action, DropAction, Own, Ownership, SpecialAssoc};

// A capability set, and by hand what a table generator emits for it.

trait Foo {
    fn add(&mut self, other: u8);
    fn get(&self) -> &u8;
}

impl Foo for u8 {
    fn add(&mut self, other: u8) {
        *self += other;
    }
    fn get(&self) -> &u8 {
        self
    }
}

/// The shared views of a `Foo` handle offer the immutable methods.
trait FooRef {
    fn get(&self) -> &u8;
}

struct FooSlots {
    add: for<'a> fn(MutSelf<'a, FooSlots>, u8),
    get: for<'a> fn(RefSelf<'a, FooSlots>) -> &'a u8,
}

fn add_shim<K: Foo + 'static>(recv: MutSelf<'_, FooSlots>, other: u8) {
    recv.value::<K>().expect("table built for K").add(other)
}

fn get_shim<'a, K: Foo + 'static>(recv: RefSelf<'a, FooSlots>) -> &'a u8 {
    recv.value::<K>().expect("table built for K").get()
}

impl SpecialAssoc for dyn Foo {
    type Kind = Own;
    type Slots = FooSlots;
}

impl<K: Foo + 'static> ThinExt<dyn Foo, K> for Thin<dyn Foo> {
    fn new(val: K) -> Thin<dyn Foo> {
        let slots = FooSlots { add: add_shim::<K>, get: get_shim::<K> };
        Thin::from_raw(Bundle::new(Table { identity: Identity::Local, slots }, val))
    }
}

impl Foo for Thin<dyn Foo> {
    fn add(&mut self, other: u8) {
        let shim = self.table().slots.add;
        shim(MutSelf::new(self), other)
    }
    fn get(&self) -> &u8 {
        let shim = self.table().slots.get;
        shim(RefSelf::new(self))
    }
}

impl<'a> Foo for ThinMut<'a, dyn Foo> {
    fn add(&mut self, other: u8) {
        let shim = self.table().slots.add;
        shim(self.receiver_mut(), other)
    }
    fn get(&self) -> &u8 {
        let shim = self.table().slots.get;
        shim(self.receiver())
    }
}

impl<'a> FooRef for ThinRef<'a, dyn Foo> {
    fn get(&self) -> &u8 {
        let shim = self.table().slots.get;
        shim(self.receiver())
    }
}

#[test]
fn one_pointer_wide() {
    assert_eq!(size_of::<Thin<dyn Foo>>(), size_of::<usize>());
}

#[test]
fn niche_optimisations() {
    assert_eq!(size_of::<Option<Thin<dyn Foo>>>(), size_of::<usize>());
}

#[test]
fn every_variant_is_one_pointer_wide() {
    assert_eq!(size_of::<Thin<LocalAnySet>>(), size_of::<usize>());
    assert_eq!(size_of::<ThinRef<'static, dyn Foo>>(), size_of::<usize>());
    assert_eq!(size_of::<ThinMut<'static, dyn Foo>>(), size_of::<usize>());
    assert_eq!(size_of::<Option<ThinRef<'static, dyn Foo>>>(), size_of::<usize>());
    assert_eq!(size_of::<Option<ThinMut<'static, dyn Foo>>>(), size_of::<usize>());
    assert_eq!(size_of::<RefSelf<'static, FooSlots>>(), size_of::<usize>());
    assert_eq!(size_of::<MutSelf<'static, FooSlots>>(), size_of::<usize>());
}

#[test]
fn thin_foo() {
    let mut thin = Thin::<dyn Foo>::new(8u8);
    thin.add(1u8);
    assert_eq!(*thin.get(), 9u8);
}

#[test]
fn borrowing() {
    let mut owned = Thin::<dyn Foo>::new(8u8);

    let mut borrow_mut = owned.as_mut();
    borrow_mut.add(1);
    drop(borrow_mut);

    let borrow = owned.as_ref();
    let clone = borrow.copy();

    let a = clone.get();
    assert_eq!(*a, 9u8);

    let b = borrow.get();
    assert_eq!(*b, 9u8);
}

#[test]
fn capability_call_then_downcast() {
    let mut thin = Thin::<dyn Foo>::new(8u8);
    thin.add(1u8);
    assert_eq!(*thin.get(), 9u8);
    assert_eq!(thin.into_bundle().take_local::<u8>(), Some(9u8));
}

#[test]
fn ownership_variants() {
    let mut owned = Thin::<dyn Foo>::new(1u8);
    assert_eq!(owned.ownership(), Ownership::Owned);
    assert_eq!(owned.as_ref().ownership(), Ownership::RefView);
    assert_eq!(owned.as_mut().ownership(), Ownership::MutView);
    assert_eq!(drop_action(Ownership::Owned), DropAction::Destroy);
    assert_eq!(drop_action(Ownership::RefView), DropAction::Nothing);
    assert_eq!(drop_action(Ownership::MutView), DropAction::Nothing);
}

struct Counted(Rc<Cell<usize>>);

impl Drop for Counted {
    fn drop(&mut self) {
        self.0.set(self.0.get() + 1);
    }
}

#[test]
fn owner_drop_runs_destructor_once() {
    let drops = Rc::new(Cell::new(0usize));
    let mut owned = Thin::<LocalAnySet>::new(Counted(drops.clone()));
    {
        let view = owned.as_ref();
        let copy = view.copy();
        drop(copy);
        drop(view);
    }
    assert_eq!(drops.get(), 0);
    drop(owned.as_mut());
    assert_eq!(drops.get(), 0);
    drop(owned);
    assert_eq!(drops.get(), 1);
}

#[test]
fn failed_downcast_drops_value_once() {
    let drops = Rc::new(Cell::new(0usize));
    let owned = Thin::<LocalAnySet>::new(Counted(drops.clone()));
    assert!(owned.downcast::<u8>().is_none());
    assert_eq!(drops.get(), 1);
}

#[test]
fn table_keeps_identity() {
    let thin = Thin::<dyn Foo>::new(3u8);
    assert_eq!(thin.table().identity, Identity::Local);
    assert_eq!(thin.as_ref().table().identity, Identity::Local);
}
