// The record-instance model: empty-shadow construction and the resolution
// walk, slot by slot.

use empty_type::fields::Strategy;
use empty_type::resolution::{empty_shadow, resolve_slots, FieldOutcome, FieldPlan, Slot, SlotField};
use empty_type::{Container, Fallible, Optional};

fn plan(name: &str, strategy: Strategy, fail_soft: bool) -> FieldPlan {
    FieldPlan {
        name: name.to_string(),
        strategy,
        fail_soft,
    }
}

#[test]
fn empty_required_shadow_fails_naming_first_field() {
    let plans = vec![
        plan("alpha", Strategy::Required, false),
        plan("beta", Strategy::Required, false),
    ];
    let shadow: Vec<SlotField<String>> = empty_shadow(&plans);
    let err = resolve_slots(shadow).err().unwrap();
    assert_eq!(err.field.as_deref(), Some("alpha"));
    assert_eq!(
        err.message(),
        "Failed to resolve field alpha. Opened to `None` value"
    );
}

#[test]
fn resolution_stops_at_first_missing_field_in_declaration_order() {
    let shadow: Vec<SlotField<String>> = vec![
        SlotField {
            name: "first".to_string(),
            slot: Slot::Required(Some("present".to_string())),
        },
        SlotField {
            name: "second".to_string(),
            slot: Slot::Required(None),
        },
        SlotField {
            name: "third".to_string(),
            slot: Slot::Required(None),
        },
    ];
    let err = resolve_slots(shadow).err().unwrap();
    assert_eq!(err.field.as_deref(), Some("second"));
}

#[test]
fn filled_shadow_resolves_to_the_filled_values() {
    let shadow: Vec<SlotField<String>> = vec![
        SlotField {
            name: "first".to_string(),
            slot: Slot::Required(Some("one".to_string())),
        },
        SlotField {
            name: "second".to_string(),
            slot: Slot::Required(Some("two".to_string())),
        },
    ];
    let values = resolve_slots(shadow).unwrap();
    assert_eq!(
        values,
        vec![
            FieldOutcome::Single("one".to_string()),
            FieldOutcome::Single("two".to_string()),
        ]
    );
}

#[test]
fn flattening_slot_yields_single_level_optional() {
    let shadow: Vec<SlotField<String>> = vec![SlotField {
        name: "maybe".to_string(),
        slot: Slot::Flattening(Optional(Some("inner".to_string()))),
    }];
    let values = resolve_slots(shadow).unwrap();
    assert_eq!(values, vec![FieldOutcome::Maybe(Some("inner".to_string()))]);

    // an unset flattening slot resolves to the explicit absence
    let empty: Vec<SlotField<String>> = vec![SlotField {
        name: "maybe".to_string(),
        slot: Slot::Flattening(Optional(None)),
    }];
    assert_eq!(resolve_slots(empty).unwrap(), vec![FieldOutcome::Maybe(None)]);
}

#[test]
fn fail_soft_slot_substitutes_the_default() {
    let shadow: Vec<SlotField<String>> = vec![
        SlotField {
            name: "soft".to_string(),
            slot: Slot::SoftRequired(Fallible(None)),
        },
        SlotField {
            name: "kept".to_string(),
            slot: Slot::SoftRequired(Fallible(Some("set".to_string()))),
        },
    ];
    let values = resolve_slots(shadow).unwrap();
    assert_eq!(
        values,
        vec![
            FieldOutcome::Single(String::new()),
            FieldOutcome::Single("set".to_string()),
        ]
    );
}

#[test]
fn boolean_slot_reports_false_and_resolves_unset() {
    let plans = vec![plan("flag", Strategy::Boolean, false)];
    let shadow: Vec<SlotField<String>> = empty_shadow(&plans);
    let values = resolve_slots(shadow).unwrap();
    assert_eq!(values, vec![FieldOutcome::Flag(false)]);
}

#[test]
fn slot_opens_only_once() {
    let mut slot: Option<u32> = Some(11);
    assert_eq!(Container::try_open(&mut slot).unwrap(), 11);
    // the first opening consumed the value; a second opening fails
    assert!(Container::try_open(&mut slot).is_err());

    // the flattening slot is consumed the same way: a second opening yields
    // the explicit absence rather than the stale value
    let mut flat: Optional<u32> = Optional(Some(7));
    assert_eq!(Container::try_open(&mut flat).unwrap(), Some(7));
    assert_eq!(Container::try_open(&mut flat).unwrap(), None);
}

#[test]
fn unnamed_slot_error_has_generic_message() {
    let mut slot: Option<u32> = None;
    let err = Container::try_open(&mut slot).err().unwrap();
    assert!(err.field.is_none());
    assert_eq!(err.message(), "Option opened to `None value`");
}
