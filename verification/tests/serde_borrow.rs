// A record with a lifetime parameter: the shadow struct carries the same
// generics skeleton, with the bounds stripped in type positions.

use empty_type::{Container, DefaultValue, EmptyType, ResolveError};
use serde::de::{Deserialize, Deserializer, MapAccess, Visitor};
use std::borrow::Cow;

struct TestStruct<'a> {
    value: Inner<'a>,
}

#[derive(Debug)]
struct Inner<'a>(Cow<'a, str>);

#[derive(Default)]
struct EmptyTestStruct<'a> {
    value: Option<Inner<'a>>,
}

impl<'a> DefaultValue for EmptyTestStruct<'a> {
    fn default_value() -> Self {
        Default::default()
    }
}

impl<'a> Container for EmptyTestStruct<'a> {
    type Value = TestStruct<'a>;

    fn try_open(&mut self) -> Result<TestStruct<'a>, ResolveError> {
        Ok(TestStruct {
            value: Container::try_open_with_meta(&mut self.value, "value")?,
        })
    }
}

impl<'a> EmptyType for TestStruct<'a> {
    type Container = EmptyTestStruct<'a>;
}

// The borrowed field deserializes from the input text itself: the slot is
// filled with a value that borrows from the deserializer's input.
struct ShadowVisitor;

impl<'de> Visitor<'de> for ShadowVisitor {
    type Value = EmptyTestStruct<'de>;

    fn expecting(&self, formatter: &mut std::fmt::Formatter) -> std::fmt::Result {
        formatter.write_str("a map of the record's fields")
    }

    fn visit_map<A>(self, mut map: A) -> Result<Self::Value, A::Error>
    where
        A: MapAccess<'de>,
    {
        let mut shadow = EmptyTestStruct::default();
        while let Some(key) = map.next_key::<String>()? {
            if key == "value" {
                let borrowed: &'de str = map.next_value()?;
                shadow.value = Some(Inner(Cow::Borrowed(borrowed)));
            } else {
                let _: serde_json::Value = map.next_value()?;
            }
        }
        Ok(shadow)
    }
}

impl<'de> Deserialize<'de> for EmptyTestStruct<'de> {
    fn deserialize<D>(deserializer: D) -> Result<Self, D::Error>
    where
        D: Deserializer<'de>,
    {
        deserializer.deserialize_map(ShadowVisitor)
    }
}

fn deserialize_empty<'de, D>(de: D) -> Result<empty_type::Empty<TestStruct<'de>>, D::Error>
where
    D: Deserializer<'de>,
{
    let value = EmptyTestStruct::deserialize(de)?;
    Ok(empty_type::Empty(value, std::marker::PhantomData))
}

#[test]
fn serde_borrow_empty_type_can_be_instantiated() {
    let empty = TestStruct::new_empty();
    assert!(empty.0.value.is_none());
}

#[test]
fn serde_borrow_empty_type_can_be_deserialized() {
    let json = r#"
        {
            "value": "true"
        }
    "#;

    let mut de = serde_json::Deserializer::from_str(json);
    let value = deserialize_empty(&mut de).unwrap();

    assert!(value.0.value.is_some());

    let value = value.resolve();

    assert!(
        matches!(&value.value, &Inner(Cow::Borrowed(_))),
        "{:?}",
        &value.value.0
    );
}
