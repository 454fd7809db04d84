// A record with one field whose declared type is already optional, together
// with the shadow struct and impls that the derivation engine renders for it.

use empty_type::{Container, DefaultValue, Empty, EmptyType, Optional, ResolveError};

struct TestStruct {
    value: Option<&'static str>,
}

#[derive(Default)]
struct EmptyTestStruct {
    value: Optional<&'static str>,
}

impl DefaultValue for EmptyTestStruct {
    fn default_value() -> Self {
        Default::default()
    }
}

impl Container for EmptyTestStruct {
    type Value = TestStruct;

    fn try_open(&mut self) -> Result<TestStruct, ResolveError> {
        Ok(TestStruct {
            value: Container::try_open_with_meta(&mut self.value, "value")?,
        })
    }
}

impl EmptyType for TestStruct {
    type Container = EmptyTestStruct;
}

#[test]
fn base_cases_empty_type_can_be_instantiated() {
    let empty: Empty<TestStruct> = TestStruct::new_empty();
    assert!(empty.0.value.0.is_none());
}

#[test]
fn empty_type_can_be_unwrapped() {
    let mut empty = TestStruct::new_empty();
    empty.0.value.0 = Some("str");

    let unwrapped = empty.resolve();
    assert!(unwrapped.value.is_some());
}
