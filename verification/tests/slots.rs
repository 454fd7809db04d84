// The runtime slot library, one wrapper at a time.

use empty_type::{Container, DefaultValue, Fallible, Optional};

#[test]
fn plain_optional_slot_opens_and_fails_by_state() {
    let mut filled: Option<String> = Some("held".to_string());
    assert_eq!(Container::open(&mut filled), "held");

    let mut empty: Option<String> = None;
    let err = Container::try_open(&mut empty).err().unwrap();
    assert!(err.field.is_none());
}

#[test]
fn open_with_meta_names_the_field_on_failure() {
    let mut empty: Option<u8> = None;
    let err = Container::try_open_with_meta(&mut empty, "count").err().unwrap();
    assert_eq!(err.field.as_deref(), Some("count"));
    assert_eq!(
        err.message(),
        "Failed to resolve field count. Opened to `None` value"
    );

    let mut filled: Option<u8> = Some(3);
    assert_eq!(Container::open_with_meta(&mut filled, "count"), 3);
    assert!(filled.is_none());
}

#[test]
fn open_or_default_substitutes_the_default() {
    let mut empty: Option<Vec<u8>> = None;
    assert_eq!(Container::open_or_default(&mut empty), Vec::<u8>::new());

    let mut filled: Option<Vec<u8>> = Some(vec![1, 2]);
    assert_eq!(Container::open_or_default(&mut filled), vec![1, 2]);
}

#[test]
fn fail_soft_slot_never_fails() {
    let mut empty: Fallible<Option<String>> = Fallible(None);
    assert_eq!(Container::try_open(&mut empty).unwrap(), String::new());

    let mut filled: Fallible<Option<String>> = Fallible(Some("kept".to_string()));
    assert_eq!(Container::try_open(&mut filled).unwrap(), "kept");

    // around a flattening slot, absence passes through as the explicit
    // absence rather than an error
    let mut flat: Fallible<Optional<String>> = Fallible(Optional(None));
    assert_eq!(Container::try_open(&mut flat).unwrap(), None);
}

#[test]
fn boolean_slot_copies_without_consuming() {
    let mut flag = true;
    assert!(Container::try_open(&mut flag).unwrap());
    // the boolean slot is the field itself; opening it leaves it in place
    assert!(Container::try_open(&mut flag).unwrap());
}

#[test]
fn default_values_are_the_types_empty_states() {
    assert_eq!(bool::default_value(), false);
    assert_eq!(Option::<u8>::default_value(), None);
    assert_eq!(String::default_value(), "");
    assert_eq!(Vec::<u8>::default_value(), Vec::new());
    assert!(Optional::<u8>::default_value().0.is_none());
    assert!(Fallible::<Option<u8>>::default_value().0.is_none());
}
