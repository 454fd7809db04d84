// A record marked fail-soft at the record level: every field resolves through
// the default-substituting path, so an unfilled shadow still resolves.

use empty_type::{Container, DefaultValue, EmptyType, Fallible, ResolveError};

struct TestStruct {
    value: Nested,
}

#[derive(Default)]
struct Nested {
    value: bool,
}

impl DefaultValue for Nested {
    fn default_value() -> Self {
        Default::default()
    }
}

#[derive(Default)]
struct EmptyTestStruct {
    value: Fallible<Option<Nested>>,
}

impl DefaultValue for EmptyTestStruct {
    fn default_value() -> Self {
        Default::default()
    }
}

impl Container for EmptyTestStruct {
    type Value = TestStruct;

    fn try_open(&mut self) -> Result<TestStruct, ResolveError> {
        Ok(TestStruct {
            value: Container::open_or_default(&mut self.value),
        })
    }
}

impl EmptyType for TestStruct {
    type Container = EmptyTestStruct;
}

#[test]
fn default_empty_type_can_be_instantiated() {
    let empty = TestStruct::new_empty();
    assert!(empty.0.value.0.is_none());
}

#[test]
fn unwrapping_produces_default_value() {
    let empty = TestStruct::new_empty();
    let full = empty.resolve();

    assert_eq!(full.value.value, false);
}
