use thin_trait_objects::handle::{Thin, ThinExt};
use thin_trait_objects::local_any::LocalAnySet;

#[test]
fn any_downcasting() {
    let mut thin = Thin::<LocalAnySet>::new(8u8);

    let val = thin.downcast_ref::<u8>().unwrap();
    assert_eq!(*val, 8u8);

    let val = thin.downcast_mut::<u8>().unwrap();
    *val += 1;

    let val = thin.downcast::<u8>().unwrap();
    assert_eq!(val, 9u8);
}

#[test]
fn local_mismatch_then_match() {
    let thin = Thin::<LocalAnySet>::new(8u8);
    assert!(thin.downcast_ref::<u16>().is_none());
    assert!(!thin.is::<u16>());
    assert!(thin.is::<u8>());
    assert_eq!(thin.downcast::<u8>(), Some(8u8));
}

#[test]
fn local_mismatch_consumes_to_none() {
    let thin = Thin::<LocalAnySet>::new(8u8);
    assert_eq!(thin.downcast::<u16>(), None);
}

#[test]
fn local_identity_tells_types_apart() {
    let mut thin = Thin::<LocalAnySet>::new(String::from("x"));
    assert!(thin.is::<String>());
    assert!(!thin.is::<&'static str>());
    assert!(thin.downcast_mut::<Vec<u8>>().is_none());
    thin.downcast_mut::<String>().unwrap().push('y');
    assert_eq!(thin.downcast::<String>().unwrap(), "xy");
}
