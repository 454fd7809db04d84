// The deserialization-enabled record: absent fields deserialize to empty
// slots, a boolean field deserializes to the bare boolean, and strict
// resolution names the first field whose slot is still empty.

use empty_type::{Container, DefaultValue, EmptyType, Fallible, ResolveError};
use serde::de::{Deserialize, Deserializer, MapAccess, Visitor};

#[allow(dead_code)]
struct TestStruct {
    value: bool,
    valuer: String,
    missing: Vec<String>,
}

#[derive(Default)]
struct EmptyTestStruct {
    value: bool,
    valuer: Option<String>,
    missing: Option<Vec<String>>,
}

impl DefaultValue for EmptyTestStruct {
    fn default_value() -> Self {
        Default::default()
    }
}

impl Container for EmptyTestStruct {
    type Value = TestStruct;

    fn try_open(&mut self) -> Result<TestStruct, ResolveError> {
        Ok(TestStruct {
            value: Container::try_open_with_meta(&mut self.value, "value")?,
            valuer: Container::try_open_with_meta(&mut self.valuer, "valuer")?,
            missing: Container::try_open_with_meta(&mut self.missing, "missing")?,
        })
    }
}

impl EmptyType for TestStruct {
    type Container = EmptyTestStruct;
}

struct ShadowVisitor;

impl<'de> Visitor<'de> for ShadowVisitor {
    type Value = EmptyTestStruct;

    fn expecting(&self, formatter: &mut std::fmt::Formatter) -> std::fmt::Result {
        formatter.write_str("a map of the record's fields")
    }

    fn visit_map<A>(self, mut map: A) -> Result<Self::Value, A::Error>
    where
        A: MapAccess<'de>,
    {
        let mut shadow = EmptyTestStruct::default();
        while let Some(key) = map.next_key::<String>()? {
            match key.as_str() {
                "value" => shadow.value = map.next_value()?,
                "valuer" => shadow.valuer = Some(map.next_value()?),
                "missing" => shadow.missing = Some(map.next_value()?),
                _ => {
                    let _: serde_json::Value = map.next_value()?;
                }
            }
        }
        Ok(shadow)
    }
}

impl<'de> Deserialize<'de> for EmptyTestStruct {
    fn deserialize<D>(deserializer: D) -> Result<Self, D::Error>
    where
        D: Deserializer<'de>,
    {
        deserializer.deserialize_map(ShadowVisitor)
    }
}

// The same record with its `missing` field marked fail-soft: an absent
// sequence field then resolves to the empty sequence instead of failing.
#[allow(dead_code)]
struct FailSoftTestStruct {
    value: bool,
    valuer: String,
    missing: Vec<String>,
}

#[derive(Default)]
struct EmptyFailSoftTestStruct {
    value: bool,
    valuer: Option<String>,
    missing: Fallible<Option<Vec<String>>>,
}

impl DefaultValue for EmptyFailSoftTestStruct {
    fn default_value() -> Self {
        Default::default()
    }
}

impl Container for EmptyFailSoftTestStruct {
    type Value = FailSoftTestStruct;

    fn try_open(&mut self) -> Result<FailSoftTestStruct, ResolveError> {
        Ok(FailSoftTestStruct {
            value: Container::try_open_with_meta(&mut self.value, "value")?,
            valuer: Container::try_open_with_meta(&mut self.valuer, "valuer")?,
            missing: Container::open_or_default(&mut self.missing),
        })
    }
}

impl EmptyType for FailSoftTestStruct {
    type Container = EmptyFailSoftTestStruct;
}

#[test]
fn serde_empty_type_can_be_instantiated() {
    let empty = TestStruct::new_empty();
    assert_eq!(empty.0.value, false);
}

#[test]
fn empty_type_can_be_deserialized() {
    let json = r#"
        {
            "value": true,
            "valuer": "more value"
        }
    "#;

    let value: <TestStruct as EmptyType>::Container = serde_json::from_str(json).unwrap();
    assert!(value.value);
    assert!(value.valuer.is_some());

    assert!(value.missing.is_none());
}

#[test]
fn missing_field_fails_strict_resolution_by_name() {
    let json = r#"
        {
            "value": true,
            "valuer": "more value"
        }
    "#;

    let shadow: EmptyTestStruct = serde_json::from_str(json).unwrap();
    let empty = empty_type::Empty::<TestStruct>(shadow, std::marker::PhantomData);
    let err = empty.try_resolve().err().unwrap();
    assert_eq!(err.field.as_deref(), Some("missing"));
    assert_eq!(
        err.message(),
        "Failed to resolve field missing. Opened to `None` value"
    );
}

#[test]
fn missing_fail_soft_field_resolves_to_empty_sequence() {
    let json = r#"
        {
            "value": true,
            "valuer": "more value"
        }
    "#;

    let plain: EmptyTestStruct = serde_json::from_str(json).unwrap();
    let shadow = EmptyFailSoftTestStruct {
        value: plain.value,
        valuer: plain.valuer,
        missing: Fallible(plain.missing),
    };
    let empty = empty_type::Empty::<FailSoftTestStruct>(shadow, std::marker::PhantomData);
    let full = empty.try_resolve().unwrap();
    assert!(full.value);
    assert_eq!(full.valuer, "more value");
    assert_eq!(full.missing, Vec::<String>::new());
}
