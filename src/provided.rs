use vstd::prelude::*;
use vstd::string::StringSliceAdditionalSpecFns;
use crate::stable_any::StableAny;
use crate::stable_id::{stable_id_of, StableTypeId, UUID};

verus! {

/// The version under which this crate registers the identities it provides.
pub const VERSION: &'static str = "0.1.7";

/// The declaring path under which primitive types are registered.
pub const PRIMITIVE_PATH: &'static str = "thin_trait_objects::stable_any::provided::primitive";

/// The declaring path under which standard library types are registered.
pub const STD_PATH: &'static str = "thin_trait_objects::stable_any::provided::std";

/// The identity this crate registers for the type named `name` at `path`.
pub open spec fn registered(path: &str, name: &str, params: Seq<StableTypeId>) -> StableTypeId {
    stable_id_of(VERSION.spec_bytes(), path.spec_bytes(), name.spec_bytes(), params)
}

fn register(path: &str, name: &str, params: &[StableTypeId]) -> (r: StableTypeId)
    ensures
        r == registered(path, name, params@),
{
    StableTypeId::compute(VERSION, path, name, params)
}

impl UUID for () {
    open spec fn spec_uuid() -> StableTypeId {
        registered(PRIMITIVE_PATH, "Unit", seq![])
    }

    fn uuid() -> (r: StableTypeId) {
        let params: [StableTypeId; 0] = [];
        register(PRIMITIVE_PATH, "Unit", &params)
    }
}

impl UUID for u8 {
    open spec fn spec_uuid() -> StableTypeId {
        registered(PRIMITIVE_PATH, "u8", seq![])
    }

    fn uuid() -> (r: StableTypeId) {
        let params: [StableTypeId; 0] = [];
        register(PRIMITIVE_PATH, "u8", &params)
    }
}

impl UUID for u16 {
    open spec fn spec_uuid() -> StableTypeId {
        registered(PRIMITIVE_PATH, "u16", seq![])
    }

    fn uuid() -> (r: StableTypeId) {
        let params: [StableTypeId; 0] = [];
        register(PRIMITIVE_PATH, "u16", &params)
    }
}

impl UUID for u32 {
    open spec fn spec_uuid() -> StableTypeId {
        registered(PRIMITIVE_PATH, "u32", seq![])
    }

    fn uuid() -> (r: StableTypeId) {
        let params: [StableTypeId; 0] = [];
        register(PRIMITIVE_PATH, "u32", &params)
    }
}

impl UUID for u64 {
    open spec fn spec_uuid() -> StableTypeId {
        registered(PRIMITIVE_PATH, "u64", seq![])
    }

    fn uuid() -> (r: StableTypeId) {
        let params: [StableTypeId; 0] = [];
        register(PRIMITIVE_PATH, "u64", &params)
    }
}

impl UUID for u128 {
    open spec fn spec_uuid() -> StableTypeId {
        registered(PRIMITIVE_PATH, "u128", seq![])
    }

    fn uuid() -> (r: StableTypeId) {
        let params: [StableTypeId; 0] = [];
        register(PRIMITIVE_PATH, "u128", &params)
    }
}

impl UUID for usize {
    open spec fn spec_uuid() -> StableTypeId {
        registered(PRIMITIVE_PATH, "usize", seq![])
    }

    fn uuid() -> (r: StableTypeId) {
        let params: [StableTypeId; 0] = [];
        register(PRIMITIVE_PATH, "usize", &params)
    }
}

impl UUID for i8 {
    open spec fn spec_uuid() -> StableTypeId {
        registered(PRIMITIVE_PATH, "i8", seq![])
    }

    fn uuid() -> (r: StableTypeId) {
        let params: [StableTypeId; 0] = [];
        register(PRIMITIVE_PATH, "i8", &params)
    }
}

impl UUID for i16 {
    open spec fn spec_uuid() -> StableTypeId {
        registered(PRIMITIVE_PATH, "i16", seq![])
    }

    fn uuid() -> (r: StableTypeId) {
        let params: [StableTypeId; 0] = [];
        register(PRIMITIVE_PATH, "i16", &params)
    }
}

impl UUID for i32 {
    open spec fn spec_uuid() -> StableTypeId {
        registered(PRIMITIVE_PATH, "i32", seq![])
    }

    fn uuid() -> (r: StableTypeId) {
        let params: [StableTypeId; 0] = [];
        register(PRIMITIVE_PATH, "i32", &params)
    }
}

impl UUID for i64 {
    open spec fn spec_uuid() -> StableTypeId {
        registered(PRIMITIVE_PATH, "i64", seq![])
    }

    fn uuid() -> (r: StableTypeId) {
        let params: [StableTypeId; 0] = [];
        register(PRIMITIVE_PATH, "i64", &params)
    }
}

impl UUID for i128 {
    open spec fn spec_uuid() -> StableTypeId {
        registered(PRIMITIVE_PATH, "i128", seq![])
    }

    fn uuid() -> (r: StableTypeId) {
        let params: [StableTypeId; 0] = [];
        register(PRIMITIVE_PATH, "i128", &params)
    }
}

impl UUID for isize {
    open spec fn spec_uuid() -> StableTypeId {
        registered(PRIMITIVE_PATH, "isize", seq![])
    }

    fn uuid() -> (r: StableTypeId) {
        let params: [StableTypeId; 0] = [];
        register(PRIMITIVE_PATH, "isize", &params)
    }
}

impl UUID for bool {
    open spec fn spec_uuid() -> StableTypeId {
        registered(PRIMITIVE_PATH, "bool", seq![])
    }

    fn uuid() -> (r: StableTypeId) {
        let params: [StableTypeId; 0] = [];
        register(PRIMITIVE_PATH, "bool", &params)
    }
}

impl UUID for char {
    open spec fn spec_uuid() -> StableTypeId {
        registered(PRIMITIVE_PATH, "char", seq![])
    }

    fn uuid() -> (r: StableTypeId) {
        let params: [StableTypeId; 0] = [];
        register(PRIMITIVE_PATH, "char", &params)
    }
}

impl<T1: UUID> UUID for (T1,) {
    open spec fn spec_uuid() -> StableTypeId {
        registered(PRIMITIVE_PATH, "Tuple1", seq![T1::spec_uuid()])
    }

    fn uuid() -> (r: StableTypeId) {
        let params = [T1::uuid()];
        assert(params@ =~= seq![T1::spec_uuid()]);
        register(PRIMITIVE_PATH, "Tuple1", &params)
    }
}

impl<T1: UUID, T2: UUID> UUID for (T1, T2) {
    open spec fn spec_uuid() -> StableTypeId {
        registered(PRIMITIVE_PATH, "Tuple2", seq![T1::spec_uuid(), T2::spec_uuid()])
    }

    fn uuid() -> (r: StableTypeId) {
        let params = [T1::uuid(), T2::uuid()];
        assert(params@ =~= seq![T1::spec_uuid(), T2::spec_uuid()]);
        register(PRIMITIVE_PATH, "Tuple2", &params)
    }
}

impl<T1: UUID, T2: UUID, T3: UUID> UUID for (T1, T2, T3) {
    open spec fn spec_uuid() -> StableTypeId {
        registered(PRIMITIVE_PATH, "Tuple3", seq![T1::spec_uuid(), T2::spec_uuid(), T3::spec_uuid()])
    }

    fn uuid() -> (r: StableTypeId) {
        let params = [T1::uuid(), T2::uuid(), T3::uuid()];
        assert(params@ =~= seq![T1::spec_uuid(), T2::spec_uuid(), T3::spec_uuid()]);
        register(PRIMITIVE_PATH, "Tuple3", &params)
    }
}

impl<T1: UUID, T2: UUID, T3: UUID, T4: UUID> UUID for (T1, T2, T3, T4) {
    open spec fn spec_uuid() -> StableTypeId {
        registered(PRIMITIVE_PATH, "Tuple4", seq![T1::spec_uuid(), T2::spec_uuid(), T3::spec_uuid(), T4::spec_uuid()])
    }

    fn uuid() -> (r: StableTypeId) {
        let params = [T1::uuid(), T2::uuid(), T3::uuid(), T4::uuid()];
        assert(params@ =~= seq![T1::spec_uuid(), T2::spec_uuid(), T3::spec_uuid(), T4::spec_uuid()]);
        register(PRIMITIVE_PATH, "Tuple4", &params)
    }
}

impl<T1: UUID, T2: UUID, T3: UUID, T4: UUID, T5: UUID> UUID for (T1, T2, T3, T4, T5) {
    open spec fn spec_uuid() -> StableTypeId {
        registered(PRIMITIVE_PATH, "Tuple5", seq![
            T1::spec_uuid(),
            T2::spec_uuid(),
            T3::spec_uuid(),
            T4::spec_uuid(),
            T5::spec_uuid(),
        ])
    }

    fn uuid() -> (r: StableTypeId) {
        let params = [T1::uuid(), T2::uuid(), T3::uuid(), T4::uuid(), T5::uuid()];
        assert(params@ =~= seq![
            T1::spec_uuid(),
            T2::spec_uuid(),
            T3::spec_uuid(),
            T4::spec_uuid(),
            T5::spec_uuid(),
        ]);
        register(PRIMITIVE_PATH, "Tuple5", &params)
    }
}

impl<
    T1: UUID,
    T2: UUID,
    T3: UUID,
    T4: UUID,
    T5: UUID,
    T6: UUID,
> UUID for (T1, T2, T3, T4, T5, T6) {
    open spec fn spec_uuid() -> StableTypeId {
        registered(PRIMITIVE_PATH, "Tuple6", seq![
            T1::spec_uuid(),
            T2::spec_uuid(),
            T3::spec_uuid(),
            T4::spec_uuid(),
            T5::spec_uuid(),
            T6::spec_uuid(),
        ])
    }

    fn uuid() -> (r: StableTypeId) {
        let params = [T1::uuid(), T2::uuid(), T3::uuid(), T4::uuid(), T5::uuid(), T6::uuid()];
        assert(params@ =~= seq![
            T1::spec_uuid(),
            T2::spec_uuid(),
            T3::spec_uuid(),
            T4::spec_uuid(),
            T5::spec_uuid(),
            T6::spec_uuid(),
        ]);
        register(PRIMITIVE_PATH, "Tuple6", &params)
    }
}

impl<
    T1: UUID,
    T2: UUID,
    T3: UUID,
    T4: UUID,
    T5: UUID,
    T6: UUID,
    T7: UUID,
> UUID for (T1, T2, T3, T4, T5, T6, T7) {
    open spec fn spec_uuid() -> StableTypeId {
        registered(PRIMITIVE_PATH, "Tuple7", seq![
            T1::spec_uuid(),
            T2::spec_uuid(),
            T3::spec_uuid(),
            T4::spec_uuid(),
            T5::spec_uuid(),
            T6::spec_uuid(),
            T7::spec_uuid(),
        ])
    }

    fn uuid() -> (r: StableTypeId) {
        let params = [T1::uuid(), T2::uuid(), T3::uuid(), T4::uuid(), T5::uuid(), T6::uuid(), T7::uuid()];
        assert(params@ =~= seq![
            T1::spec_uuid(),
            T2::spec_uuid(),
            T3::spec_uuid(),
            T4::spec_uuid(),
            T5::spec_uuid(),
            T6::spec_uuid(),
            T7::spec_uuid(),
        ]);
        register(PRIMITIVE_PATH, "Tuple7", &params)
    }
}

impl<
    T1: UUID,
    T2: UUID,
    T3: UUID,
    T4: UUID,
    T5: UUID,
    T6: UUID,
    T7: UUID,
    T8: UUID,
> UUID for (T1, T2, T3, T4, T5, T6, T7, T8) {
    open spec fn spec_uuid() -> StableTypeId {
        registered(PRIMITIVE_PATH, "Tuple8", seq![
            T1::spec_uuid(),
            T2::spec_uuid(),
            T3::spec_uuid(),
            T4::spec_uuid(),
            T5::spec_uuid(),
            T6::spec_uuid(),
            T7::spec_uuid(),
            T8::spec_uuid(),
        ])
    }

    fn uuid() -> (r: StableTypeId) {
        let params = [
            T1::uuid(),
            T2::uuid(),
            T3::uuid(),
            T4::uuid(),
            T5::uuid(),
            T6::uuid(),
            T7::uuid(),
            T8::uuid(),
        ];
        assert(params@ =~= seq![
            T1::spec_uuid(),
            T2::spec_uuid(),
            T3::spec_uuid(),
            T4::spec_uuid(),
            T5::spec_uuid(),
            T6::spec_uuid(),
            T7::spec_uuid(),
            T8::spec_uuid(),
        ]);
        register(PRIMITIVE_PATH, "Tuple8", &params)
    }
}

impl<
    T1: UUID,
    T2: UUID,
    T3: UUID,
    T4: UUID,
    T5: UUID,
    T6: UUID,
    T7: UUID,
    T8: UUID,
    T9: UUID,
> UUID for (T1, T2, T3, T4, T5, T6, T7, T8, T9) {
    open spec fn spec_uuid() -> StableTypeId {
        registered(PRIMITIVE_PATH, "Tuple9", seq![
            T1::spec_uuid(),
            T2::spec_uuid(),
            T3::spec_uuid(),
            T4::spec_uuid(),
            T5::spec_uuid(),
            T6::spec_uuid(),
            T7::spec_uuid(),
            T8::spec_uuid(),
            T9::spec_uuid(),
        ])
    }

    fn uuid() -> (r: StableTypeId) {
        let params = [
            T1::uuid(),
            T2::uuid(),
            T3::uuid(),
            T4::uuid(),
            T5::uuid(),
            T6::uuid(),
            T7::uuid(),
            T8::uuid(),
            T9::uuid(),
        ];
        assert(params@ =~= seq![
            T1::spec_uuid(),
            T2::spec_uuid(),
            T3::spec_uuid(),
            T4::spec_uuid(),
            T5::spec_uuid(),
            T6::spec_uuid(),
            T7::spec_uuid(),
            T8::spec_uuid(),
            T9::spec_uuid(),
        ]);
        register(PRIMITIVE_PATH, "Tuple9", &params)
    }
}

impl<
    T1: UUID,
    T2: UUID,
    T3: UUID,
    T4: UUID,
    T5: UUID,
    T6: UUID,
    T7: UUID,
    T8: UUID,
    T9: UUID,
    TA: UUID,
> UUID for (T1, T2, T3, T4, T5, T6, T7, T8, T9, TA) {
    open spec fn spec_uuid() -> StableTypeId {
        registered(PRIMITIVE_PATH, "TupleA", seq![
            T1::spec_uuid(),
            T2::spec_uuid(),
            T3::spec_uuid(),
            T4::spec_uuid(),
            T5::spec_uuid(),
            T6::spec_uuid(),
            T7::spec_uuid(),
            T8::spec_uuid(),
            T9::spec_uuid(),
            TA::spec_uuid(),
        ])
    }

    fn uuid() -> (r: StableTypeId) {
        let params = [
            T1::uuid(),
            T2::uuid(),
            T3::uuid(),
            T4::uuid(),
            T5::uuid(),
            T6::uuid(),
            T7::uuid(),
            T8::uuid(),
            T9::uuid(),
            TA::uuid(),
        ];
        assert(params@ =~= seq![
            T1::spec_uuid(),
            T2::spec_uuid(),
            T3::spec_uuid(),
            T4::spec_uuid(),
            T5::spec_uuid(),
            T6::spec_uuid(),
            T7::spec_uuid(),
            T8::spec_uuid(),
            T9::spec_uuid(),
            TA::spec_uuid(),
        ]);
        register(PRIMITIVE_PATH, "TupleA", &params)
    }
}

impl<
    T1: UUID,
    T2: UUID,
    T3: UUID,
    T4: UUID,
    T5: UUID,
    T6: UUID,
    T7: UUID,
    T8: UUID,
    T9: UUID,
    TA: UUID,
    TB: UUID,
> UUID for (T1, T2, T3, T4, T5, T6, T7, T8, T9, TA, TB) {
    open spec fn spec_uuid() -> StableTypeId {
        registered(PRIMITIVE_PATH, "TupleB", seq![
            T1::spec_uuid(),
            T2::spec_uuid(),
            T3::spec_uuid(),
            T4::spec_uuid(),
            T5::spec_uuid(),
            T6::spec_uuid(),
            T7::spec_uuid(),
            T8::spec_uuid(),
            T9::spec_uuid(),
            TA::spec_uuid(),
            TB::spec_uuid(),
        ])
    }

    fn uuid() -> (r: StableTypeId) {
        let params = [
            T1::uuid(),
            T2::uuid(),
            T3::uuid(),
            T4::uuid(),
            T5::uuid(),
            T6::uuid(),
            T7::uuid(),
            T8::uuid(),
            T9::uuid(),
            TA::uuid(),
            TB::uuid(),
        ];
        assert(params@ =~= seq![
            T1::spec_uuid(),
            T2::spec_uuid(),
            T3::spec_uuid(),
            T4::spec_uuid(),
            T5::spec_uuid(),
            T6::spec_uuid(),
            T7::spec_uuid(),
            T8::spec_uuid(),
            T9::spec_uuid(),
            TA::spec_uuid(),
            TB::spec_uuid(),
        ]);
        register(PRIMITIVE_PATH, "TupleB", &params)
    }
}

impl<
    T1: UUID,
    T2: UUID,
    T3: UUID,
    T4: UUID,
    T5: UUID,
    T6: UUID,
    T7: UUID,
    T8: UUID,
    T9: UUID,
    TA: UUID,
    TB: UUID,
    TC: UUID,
> UUID for (T1, T2, T3, T4, T5, T6, T7, T8, T9, TA, TB, TC) {
    open spec fn spec_uuid() -> StableTypeId {
        registered(PRIMITIVE_PATH, "TupleC", seq![
            T1::spec_uuid(),
            T2::spec_uuid(),
            T3::spec_uuid(),
            T4::spec_uuid(),
            T5::spec_uuid(),
            T6::spec_uuid(),
            T7::spec_uuid(),
            T8::spec_uuid(),
            T9::spec_uuid(),
            TA::spec_uuid(),
            TB::spec_uuid(),
            TC::spec_uuid(),
        ])
    }

    fn uuid() -> (r: StableTypeId) {
        let params = [
            T1::uuid(),
            T2::uuid(),
            T3::uuid(),
            T4::uuid(),
            T5::uuid(),
            T6::uuid(),
            T7::uuid(),
            T8::uuid(),
            T9::uuid(),
            TA::uuid(),
            TB::uuid(),
            TC::uuid(),
        ];
        assert(params@ =~= seq![
            T1::spec_uuid(),
            T2::spec_uuid(),
            T3::spec_uuid(),
            T4::spec_uuid(),
            T5::spec_uuid(),
            T6::spec_uuid(),
            T7::spec_uuid(),
            T8::spec_uuid(),
            T9::spec_uuid(),
            TA::spec_uuid(),
            TB::spec_uuid(),
            TC::spec_uuid(),
        ]);
        register(PRIMITIVE_PATH, "TupleC", &params)
    }
}

impl<T: UUID> UUID for Option<T> {
    open spec fn spec_uuid() -> StableTypeId {
        registered(STD_PATH, "Option", seq![T::spec_uuid()])
    }

    fn uuid() -> (r: StableTypeId) {
        let params = [T::uuid()];
        assert(params@ =~= seq![T::spec_uuid()]);
        register(STD_PATH, "Option", &params)
    }
}

impl<T: UUID, E: UUID> UUID for Result<T, E> {
    open spec fn spec_uuid() -> StableTypeId {
        registered(STD_PATH, "Result", seq![T::spec_uuid(), E::spec_uuid()])
    }

    fn uuid() -> (r: StableTypeId) {
        let params = [T::uuid(), E::uuid()];
        assert(params@ =~= seq![T::spec_uuid(), E::spec_uuid()]);
        register(STD_PATH, "Result", &params)
    }
}

impl<T: ?Sized + UUID> UUID for std::rc::Rc<T> {
    open spec fn spec_uuid() -> StableTypeId {
        registered(STD_PATH, "Rc", seq![T::spec_uuid()])
    }

    fn uuid() -> (r: StableTypeId) {
        let params = [T::uuid()];
        assert(params@ =~= seq![T::spec_uuid()]);
        register(STD_PATH, "Rc", &params)
    }
}

impl<'a, T: ?Sized + UUID> UUID for &'a T {
    open spec fn spec_uuid() -> StableTypeId {
        registered(PRIMITIVE_PATH, "Ref", seq![T::spec_uuid()])
    }

    fn uuid() -> (r: StableTypeId) {
        let params = [T::uuid()];
        assert(params@ =~= seq![T::spec_uuid()]);
        register(PRIMITIVE_PATH, "Ref", &params)
    }
}

impl<'a, T: ?Sized + UUID> UUID for &'a mut T {
    open spec fn spec_uuid() -> StableTypeId {
        registered(PRIMITIVE_PATH, "Mut", seq![T::spec_uuid()])
    }

    fn uuid() -> (r: StableTypeId) {
        let params = [T::uuid()];
        assert(params@ =~= seq![T::spec_uuid()]);
        register(PRIMITIVE_PATH, "Mut", &params)
    }
}

impl<T: UUID> UUID for [T] {
    open spec fn spec_uuid() -> StableTypeId {
        registered(PRIMITIVE_PATH, "Slice", seq![T::spec_uuid()])
    }

    fn uuid() -> (r: StableTypeId) {
        let params = [T::uuid()];
        assert(params@ =~= seq![T::spec_uuid()]);
        register(PRIMITIVE_PATH, "Slice", &params)
    }
}

/// An array is registered with its element type and, as a second parameter, its
/// length.
impl<T: UUID, const N: usize> UUID for [T; N] {
    open spec fn spec_uuid() -> StableTypeId {
        registered(PRIMITIVE_PATH, "Array", seq![T::spec_uuid(), StableTypeId(N as u64)])
    }

    fn uuid() -> (r: StableTypeId) {
        let params = [T::uuid(), StableTypeId(N as u64)];
        assert(params@ =~= seq![T::spec_uuid(), StableTypeId(N as u64)]);
        register(PRIMITIVE_PATH, "Array", &params)
    }
}

/// What `StableTypeId::of` returns for a generic type is fixed by the version,
/// the declaring path and the bare name written here and by what it returns for
/// the type's parameters: nothing of a particular build or process enters it, so
/// builds that agree on these agree on the identity.
pub proof fn lemma_of_composes<T: UUID, E: UUID, const N: usize>()
    ensures
        <Option<T> as StableAny>::spec_type_identity() == stable_id_of(
            VERSION.spec_bytes(),
            STD_PATH.spec_bytes(),
            "Option".spec_bytes(),
            seq![<T as StableAny>::spec_type_identity()],
        ),
        <Result<T, E> as StableAny>::spec_type_identity() == stable_id_of(
            VERSION.spec_bytes(),
            STD_PATH.spec_bytes(),
            "Result".spec_bytes(),
            seq![<T as StableAny>::spec_type_identity(), <E as StableAny>::spec_type_identity()],
        ),
        <[T; N] as StableAny>::spec_type_identity() == stable_id_of(
            VERSION.spec_bytes(),
            PRIMITIVE_PATH.spec_bytes(),
            "Array".spec_bytes(),
            seq![<T as StableAny>::spec_type_identity(), StableTypeId(N as u64)],
        ),
{
}

} // verus!
