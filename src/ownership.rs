use vstd::prelude::*;

verus! {

/// Marker kind of a handle that owns its bundle.
pub struct Own;

/// Marker kind of a handle that shares a bundle it does not own.
pub struct Ref;

/// Marker kind of a handle that borrows a bundle mutably without owning it.
pub struct Mut;

/// The ownership variants that one handle representation can take.
#[derive(PartialEq, Eq, Structural, Clone, Copy, Debug)]
pub enum Ownership {
    Owned,
    RefView,
    MutView,
}

/// What dropping a handle does to the bundle behind it.
#[derive(PartialEq, Eq, Structural, Clone, Copy, Debug)]
pub enum DropAction {
    /// The value's destructor runs and the allocation is released.
    Destroy,
    /// Nothing: the bundle belongs to another handle.
    Nothing,
}

/// The drop policy of an ownership variant: only an owner destroys.
pub open spec fn spec_drop_action(o: Ownership) -> DropAction {
    match o {
        Ownership::Owned => DropAction::Destroy,
        _ => DropAction::Nothing,
    }
}

/// Selects the drop policy of an ownership variant.
pub fn drop_action(o: Ownership) -> (r: DropAction)
    ensures
        r == spec_drop_action(o),
{
    match o {
        Ownership::Owned => DropAction::Destroy,
        Ownership::RefView => DropAction::Nothing,
        Ownership::MutView => DropAction::Nothing,
    }
}

/// The drop policy below is a model: the handles' drop is Rust's own (an owning
/// handle holds a `Box`, a view a reference), and Verus does not follow it, so
/// no drop code is held to these definitions. The tests count destructor runs.
///
/// How many times a bundle's destructor runs when handles of the given variants
/// that refer to it are dropped, each once, in order.
pub open spec fn destructor_runs(dropped: Seq<Ownership>) -> nat
    decreases dropped.len(),
{
    if dropped.len() == 0 {
        0
    } else {
        destructor_runs(dropped.drop_last()) + if spec_drop_action(dropped.last())
            == DropAction::Destroy {
            1nat
        } else {
            0nat
        }
    }
}

/// Dropping views of a bundle never runs its destructor; dropping them and then
/// the one owning handle runs it exactly once.
pub proof fn lemma_drop_once(views: Seq<Ownership>)
    requires
        forall|i: int| 0 <= i < views.len() ==> views[i] != Ownership::Owned,
    ensures
        destructor_runs(views) == 0,
        destructor_runs(views.push(Ownership::Owned)) == 1,
    decreases views.len(),
{
    if views.len() > 0 {
        let init = views.drop_last();
        assert forall|i: int| 0 <= i < init.len() implies init[i] != Ownership::Owned by {
            assert(init[i] == views[i]);
        }
        lemma_drop_once(init);
        assert(views[views.len() - 1] != Ownership::Owned);
    }
    let all = views.push(Ownership::Owned);
    assert(all.drop_last() == views);
    assert(all.last() == Ownership::Owned);
    assert(destructor_runs(all) == destructor_runs(views) + 1);
}

/// Whatever the capability set `T`, the kind of an owning handle selects the
/// destroying policy and the kinds of both views the inert one. So dropping any
/// number of views of a bundle never runs its destructor, and dropping them and
/// then the owning handle runs it exactly once.
pub proof fn lemma_handle_drop_once<'a, T: ?Sized + SpecialAssoc + 'a>(views: Seq<Ownership>)
    requires
        forall|i: int|
            0 <= i < views.len() ==> views[i] == <&'a T as SpecialParam<Ref>>::spec_ownership()
                || views[i] == <&'a mut T as SpecialParam<Mut>>::spec_ownership(),
    ensures
        destructor_runs(views) == 0,
        destructor_runs(views.push(<T as SpecialParam<Own>>::spec_ownership())) == 1,
{
    assert forall|i: int| 0 <= i < views.len() implies views[i] != Ownership::Owned by {}
    lemma_drop_once(views);
}

/// Ties a type parameter of a handle to its ownership kind and to the shape of its
/// dispatch table's method slots.
pub trait SpecialAssoc {
    /// One of `Own`, `Ref`, `Mut`.
    type Kind;

    /// The method slots that follow the identity in the dispatch table.
    type Slots;
}

/// The ownership variant that the kind `K` selects, and with it the drop policy.
pub trait SpecialParam<K> {
    spec fn spec_ownership() -> Ownership;

    fn ownership() -> (r: Ownership)
        ensures
            r == Self::spec_ownership(),
    ;

    fn drop_action() -> (r: DropAction)
        ensures
            r == spec_drop_action(Self::spec_ownership()),
    ;
}

impl<T: ?Sized + SpecialAssoc> SpecialParam<Own> for T {
    open spec fn spec_ownership() -> Ownership {
        Ownership::Owned
    }

    fn ownership() -> (r: Ownership) {
        Ownership::Owned
    }

    fn drop_action() -> (r: DropAction) {
        drop_action(Ownership::Owned)
    }
}

impl<'a, T: ?Sized + SpecialAssoc> SpecialAssoc for &'a T {
    type Kind = Ref;

    type Slots = T::Slots;
}

impl<'a, T: ?Sized + SpecialAssoc> SpecialParam<Ref> for &'a T {
    open spec fn spec_ownership() -> Ownership {
        Ownership::RefView
    }

    fn ownership() -> (r: Ownership) {
        Ownership::RefView
    }

    fn drop_action() -> (r: DropAction) {
        drop_action(Ownership::RefView)
    }
}

impl<'a, T: ?Sized + SpecialAssoc> SpecialAssoc for &'a mut T {
    type Kind = Mut;

    type Slots = T::Slots;
}

impl<'a, T: ?Sized + SpecialAssoc> SpecialParam<Mut> for &'a mut T {
    open spec fn spec_ownership() -> Ownership {
        Ownership::MutView
    }

    fn ownership() -> (r: Ownership) {
        Ownership::MutView
    }

    fn drop_action() -> (r: DropAction) {
        drop_action(Ownership::MutView)
    }
}

} // verus!
