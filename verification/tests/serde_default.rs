// Records marked fail-soft, once at the record level and once at the field
// level: in both shapes the field resolves to its type's default when the
// slot is empty or its deserialization failed.

use empty_type::{Container, DefaultValue, EmptyType, Fallible, ResolveError};
use serde::de::{Deserialize, Deserializer, MapAccess, Visitor};

struct TestStruct {
    value: Inner,
}

struct FieldTest {
    value: Inner,
}

#[derive(Default, Debug, PartialEq)]
struct Inner(Vec<bool>);

impl DefaultValue for Inner {
    fn default_value() -> Self {
        Default::default()
    }
}

impl<'de> Deserialize<'de> for Inner {
    fn deserialize<D>(deserializer: D) -> Result<Self, D::Error>
    where
        D: Deserializer<'de>,
    {
        let values = Vec::<bool>::deserialize(deserializer)?;
        Ok(Inner(values))
    }
}

#[derive(Default)]
struct EmptyTestStruct {
    value: Fallible<Option<Inner>>,
}

impl DefaultValue for EmptyTestStruct {
    fn default_value() -> Self {
        Default::default()
    }
}

impl Container for EmptyTestStruct {
    type Value = TestStruct;

    fn try_open(&mut self) -> Result<TestStruct, ResolveError> {
        Ok(TestStruct {
            value: Container::open_or_default(&mut self.value),
        })
    }
}

impl EmptyType for TestStruct {
    type Container = EmptyTestStruct;
}

#[derive(Default)]
struct EmptyFieldTest {
    value: Fallible<Option<Inner>>,
}

impl DefaultValue for EmptyFieldTest {
    fn default_value() -> Self {
        Default::default()
    }
}

impl Container for EmptyFieldTest {
    type Value = FieldTest;

    fn try_open(&mut self) -> Result<FieldTest, ResolveError> {
        Ok(FieldTest {
            value: Container::open_or_default(&mut self.value),
        })
    }
}

impl EmptyType for FieldTest {
    type Container = EmptyFieldTest;
}

// The fail-soft slot deserializes its inner value and, on any failure,
// substitutes the default without propagating the error upward.
fn deserialize_fail_soft_slot<'de, A>(map: &mut A) -> Result<Fallible<Option<Inner>>, A::Error>
where
    A: MapAccess<'de>,
{
    let raw: serde_json::Value = map.next_value()?;
    let inner = serde_json::from_value::<Option<Inner>>(raw).unwrap_or_default();
    Ok(Fallible(inner))
}

struct ShadowVisitor;

impl<'de> Visitor<'de> for ShadowVisitor {
    type Value = EmptyTestStruct;

    fn expecting(&self, formatter: &mut std::fmt::Formatter) -> std::fmt::Result {
        formatter.write_str("a map of the record's fields")
    }

    fn visit_map<A>(self, mut map: A) -> Result<Self::Value, A::Error>
    where
        A: MapAccess<'de>,
    {
        let mut shadow = EmptyTestStruct::default();
        while let Some(key) = map.next_key::<String>()? {
            if key == "value" {
                shadow.value = deserialize_fail_soft_slot(&mut map)?;
            } else {
                let _: serde_json::Value = map.next_value()?;
            }
        }
        Ok(shadow)
    }
}

impl<'de> Deserialize<'de> for EmptyTestStruct {
    fn deserialize<D>(deserializer: D) -> Result<Self, D::Error>
    where
        D: Deserializer<'de>,
    {
        deserializer.deserialize_map(ShadowVisitor)
    }
}

struct FieldShadowVisitor;

impl<'de> Visitor<'de> for FieldShadowVisitor {
    type Value = EmptyFieldTest;

    fn expecting(&self, formatter: &mut std::fmt::Formatter) -> std::fmt::Result {
        formatter.write_str("a map of the record's fields")
    }

    fn visit_map<A>(self, mut map: A) -> Result<Self::Value, A::Error>
    where
        A: MapAccess<'de>,
    {
        let mut shadow = EmptyFieldTest::default();
        while let Some(key) = map.next_key::<String>()? {
            if key == "value" {
                shadow.value = deserialize_fail_soft_slot(&mut map)?;
            } else {
                let _: serde_json::Value = map.next_value()?;
            }
        }
        Ok(shadow)
    }
}

impl<'de> Deserialize<'de> for EmptyFieldTest {
    fn deserialize<D>(deserializer: D) -> Result<Self, D::Error>
    where
        D: Deserializer<'de>,
    {
        deserializer.deserialize_map(FieldShadowVisitor)
    }
}

#[test]
fn serde_default_empty_type_can_be_instantiated() {
    let empty = TestStruct::new_empty();
    assert!(empty.0.value.0.is_none());
}

#[test]
fn empty_type_deserializes_to_default() {
    let json = r#" {}  "#;

    let mut de = serde_json::Deserializer::from_str(json);
    let value = empty_type::Empty::<TestStruct>(
        EmptyTestStruct::deserialize(&mut de).unwrap(),
        std::marker::PhantomData,
    );

    // This resolved to none but still worked
    assert!(value.0.value.0.is_none());

    let value = value.resolve();
    assert_eq!(value.value, Inner::default());
}

#[test]
fn field_test_serializes_to_default() {
    let json = r#" {}  "#;

    let mut de = serde_json::Deserializer::from_str(json);
    let value = empty_type::Empty::<FieldTest>(
        EmptyFieldTest::deserialize(&mut de).unwrap(),
        std::marker::PhantomData,
    );

    // This resolved to none but still worked
    assert!(value.0.value.0.is_none());

    let value = value.resolve();
    assert_eq!(value.value, Inner::default());
}

#[test]
fn invalid_deserialization_still_produces_values() {
    let json = r#" {
        "value": "string"
    }  "#;

    let mut de = serde_json::Deserializer::from_str(json);
    let value = empty_type::Empty::<TestStruct>(
        EmptyTestStruct::deserialize(&mut de).unwrap(),
        std::marker::PhantomData,
    );

    // This resolved to none but still worked
    assert!(value.0.value.0.is_none());

    let value = value.resolve();
    assert_eq!(value.value, Inner::default());
}

#[test]
fn invalid_de_still_produces_value_field() {
    let json = r#" {
        "value": "string"
    }  "#;

    let mut de = serde_json::Deserializer::from_str(json);
    let value = empty_type::Empty::<FieldTest>(
        EmptyFieldTest::deserialize(&mut de).unwrap(),
        std::marker::PhantomData,
    );

    // This resolved to none but still worked
    assert!(value.0.value.0.is_none());

    let value = value.resolve();
    assert_eq!(value.value, Inner::default());
}
