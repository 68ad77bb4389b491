use thin_trait_objects::handle::{Identity, Thin, ThinExt};
use thin_trait_objects::provided::VERSION;
use thin_trait_objects::stable_any::{StableAny, StableAnySendSet, StableAnySendSyncSet, StableAnySet};
use thin_trait_objects::stable_id::{StableTypeId, UUID};

/// What a registration of `TestStruct<T>`, declared in this test module, computes.
fn test_struct_id(param: StableTypeId) -> StableTypeId {
    StableTypeId::compute(VERSION, "thin_trait_objects::stable_any::tests", "TestStruct", &[param])
}

#[test]
fn mod_compilation_independence() {
    assert_eq!(test_struct_id(StableTypeId::of::<u8>()), StableTypeId::new(109550671095340697));

    // The same registration made under an earlier version and other paths.
    let u8_id = StableTypeId::compute("0.1.2", "thin_trait_objects::any::provided::std", "u8", &[]);
    let id = StableTypeId::compute("0.1.2", "thin_trait_objects::any::tests", "TestStruct", &[u8_id]);
    assert_eq!(id.to_u64(), 5540856323980585692);
}

#[test]
fn thin_uuids() {
    assert_eq!(
        StableTypeId::of::<Thin<StableAnySet>>(),
        StableTypeId::new(12949227165398566936)
    );

    assert_eq!(
        StableTypeId::of::<Thin<StableAnySendSet>>(),
        StableTypeId::new(6563640938470194213)
    );

    assert_eq!(
        StableTypeId::of::<Thin<StableAnySendSyncSet>>(),
        StableTypeId::new(18280857928655362264)
    );
}

#[test]
fn mod_type_generics() {
    assert_ne!(test_struct_id(StableTypeId::of::<u8>()), test_struct_id(StableTypeId::of::<u16>()));
}

#[test]
fn mod_downcasting() {
    let mut thin = Thin::<StableAnySet>::new(8u8);

    let val = thin.downcast_ref::<u8>().unwrap();
    assert_eq!(*val, 8u8);

    let val = thin.downcast_mut::<u8>().unwrap();
    *val += 1;

    let val = thin.downcast::<u8>().unwrap();
    assert_eq!(val, 9u8);
}

#[test]
fn array() {
    assert_ne!(<[u8; 1]>::uuid(), <[u8; 2]>::uuid());
}

#[test]
fn stable_mismatch_then_match() {
    let thin = Thin::<StableAnySet>::new(8u8);
    assert!(thin.downcast_ref::<u16>().is_none());
    assert!(!thin.stable_is::<u16>());
    assert!(thin.stable_is::<u8>());
    assert_eq!(thin.contained_type_id(), Some(u8::uuid()));
    assert_eq!(thin.downcast::<u8>(), Some(8u8));
}

#[test]
fn stable_mismatch_consumes_to_none() {
    let thin = Thin::<StableAnySet>::new(8u8);
    assert_eq!(thin.downcast::<u16>(), None);
}

#[test]
fn stable_round_trip_of_compound_values() {
    let thin = Thin::<StableAnySet>::new((1u8, Some('x'), [2i32; 3]));
    assert!(thin.downcast_ref::<(u8, Option<char>, [i32; 2])>().is_none());
    assert_eq!(thin.table().identity, Identity::Stable(<(u8, Option<char>, [i32; 3])>::uuid()));
    assert_eq!(thin.downcast::<(u8, Option<char>, [i32; 3])>(), Some((1u8, Some('x'), [2i32; 3])));
}

#[test]
fn handles_nest() {
    let inner = Thin::<StableAnySet>::new(5u16);
    let outer = Thin::<StableAnySet>::new(inner);
    let inner = outer.downcast::<Thin<StableAnySet>>().unwrap();
    assert_eq!(inner.downcast::<u16>(), Some(5u16));
}

#[test]
fn generic_parameters_separate_identities() {
    assert_ne!(Option::<u8>::uuid(), Option::<u16>::uuid());
    assert_ne!(<Result<u8, u16>>::uuid(), <Result<u16, u8>>::uuid());
    assert_ne!(<(u8,)>::uuid(), <(u16,)>::uuid());
    assert_ne!(u8::uuid(), u16::uuid());
}

#[test]
fn stable_ids_are_deterministic() {
    assert_eq!(Option::<u8>::uuid(), Option::<u8>::uuid());
    assert_eq!(StableTypeId::of::<u8>(), 8u8.stable_type_id());
    let again = StableTypeId::compute(VERSION, "thin_trait_objects::stable_any::provided::std", "Option", &[u8::uuid()]);
    assert_eq!(Option::<u8>::uuid(), again);
}

#[test]
fn identity_message_layout() {
    let msg = thin_trait_objects::stable_id::identity_message("1", "ab", "c", &[StableTypeId::new(0x0102_0304_0506_0708)]);
    assert_eq!(msg, vec![b'1', b'a', b'b', b'c', 8, 7, 6, 5, 4, 3, 2, 1]);
    let empty = thin_trait_objects::stable_id::identity_message("", "", "", &[]);
    assert!(empty.is_empty());
}

#[test]
fn handle_reports_held_type() {
    let thin = Thin::<StableAnySet>::new(8u8);
    assert_eq!(thin.stable_type_id(), StableTypeId::of::<u8>());
    assert_ne!(thin.stable_type_id(), StableTypeId::of::<Thin<StableAnySet>>());

    let outer = Thin::<StableAnySet>::new(Thin::<StableAnySet>::new(8u8));
    assert_eq!(outer.stable_type_id(), StableTypeId::of::<Thin<StableAnySet>>());
}

#[test]
fn references_and_slices_are_registered() {
    assert_ne!(<&'static u8>::uuid(), <&'static mut u8>::uuid());
    assert_ne!(<&'static u8>::uuid(), u8::uuid());
    assert_ne!(<[u8]>::uuid(), <[u8; 1]>::uuid());
    assert_eq!(StableTypeId::of::<&'static u8>(), <&'static u8>::uuid());
}

#[test]
fn ids_print_in_decimal() {
    assert_eq!(StableTypeId::new(42).to_decimal_string(), "42");
    assert_eq!(StableTypeId::new(0).to_decimal_string(), "0");
    assert_eq!(StableTypeId::new(u64::MAX).to_decimal_string(), "18446744073709551615");
    assert_eq!(StableTypeId::of::<Thin<StableAnySet>>().to_decimal_string(), "12949227165398566936");
}

#[test]
fn capability_set_ids_differ() {
    assert_ne!(StableTypeId::of::<Thin<StableAnySet>>(), StableTypeId::of::<Thin<StableAnySendSet>>());
    assert_ne!(StableTypeId::of::<Thin<StableAnySendSet>>(), StableTypeId::of::<Thin<StableAnySendSyncSet>>());
}

#[test]
fn raw_ids_round_trip() {
    assert_eq!(StableTypeId::new(42).to_u64(), 42);
}
