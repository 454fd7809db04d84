//! Incremental construction of fully-required record types.
//!
//! A record type can be paired with a companion "shadow" type in which every
//! field is held in a slot that tracks presence or absence.  The shadow is
//! built empty, filled one slot at a time, and finally resolved back into the
//! original record, either failing on the first missing required field or
//! substituting defaults for fields marked fail-soft.
//!
//! The crate has two halves:
//! - the runtime slot library: the [`Container`] contract together with the
//!   slot wrappers ([`Optional`], [`Fallible`]) and the [`Empty`] handle; and
//! - the derivation engine: given a structured view of a record declaration
//!   ([`syntax::RecordInput`]), it classifies every field, synthesizes the
//!   shadow struct, and renders the conversion impls as Rust source text.

use vstd::prelude::*;

pub mod attribute;
pub mod codegen;
pub mod empty;
pub mod fallible;
pub mod fields;
pub mod optional;
pub mod resolution;
pub mod syntax;
pub mod type_information;

pub use crate::empty::Empty;
pub use crate::fallible::Fallible;
pub use crate::optional::Optional;

verus! {

use vstd::string::StringExecFns;

/// Error produced when a slot fails to yield a value at resolution time.
/// It carries the name of the offending field when that name is known.
#[derive(Debug)]
pub struct ResolveError {
    pub field: Option<String>,
}

impl ResolveError {
    /// The error raised by a slot that was opened while empty, before any
    /// field name is attached to it.
    pub fn empty_slot() -> (r: ResolveError)
        ensures
            r.field == Option::<String>::None,
    {
        ResolveError { field: None }
    }

    /// The error raised by strict resolution for the named field.
    pub fn for_field(field_name: &str) -> (r: ResolveError)
        ensures
            r.field matches Some(f) && f@ == field_name@,
    {
        ResolveError { field: Some(field_name.to_owned()) }
    }

    /// The descriptive text of the error.
    pub open spec fn message_view(self) -> Seq<char> {
        match self.field {
            Some(f) => "Failed to resolve field "@ + f@ + ". Opened to `None` value"@,
            None => "Option opened to `None value`"@,
        }
    }

    /// Renders the descriptive text of the error.
    pub fn message(&self) -> (r: String)
        ensures
            r@ == self.message_view(),
    {
        match &self.field {
            Some(f) => {
                let mut s = "Failed to resolve field ".to_owned();
                s.append(f.as_str());
                s.append(". Opened to `None` value");
                s
            },
            None => "Option opened to `None value`".to_owned(),
        }
    }
}

/// A type with a distinguished default value, stated as a predicate so that
/// collection types (whose default is "empty") can satisfy it as well.  This
/// is the crate's contract-carrying stand-in for the standard default
/// mechanism: fail-soft slots fall back to a value satisfying `is_default`.
pub trait DefaultValue: Sized {
    /// Whether `self` is the type's default value.  The body given here is a
    /// placeholder for implementations outside the crate, which cannot state
    /// specifications; every implementation in the crate overrides it.
    open spec fn is_default(&self) -> bool {
        arbitrary()
    }

    /// Produces the type's default value.
    fn default_value() -> (r: Self)
        ensures
            r.is_default(),
    ;
}

impl DefaultValue for bool {
    open spec fn is_default(&self) -> bool {
        *self == false
    }

    fn default_value() -> (r: bool)
        ensures
            r.is_default(),
    {
        false
    }
}

impl<T> DefaultValue for Option<T> {
    open spec fn is_default(&self) -> bool {
        *self is None
    }

    fn default_value() -> (r: Option<T>)
        ensures
            r.is_default(),
    {
        None
    }
}

impl DefaultValue for String {
    open spec fn is_default(&self) -> bool {
        self@ == Seq::<char>::empty()
    }

    fn default_value() -> (r: String)
        ensures
            r.is_default(),
    {
        String::new()
    }
}

impl<T> DefaultValue for Vec<T> {
    open spec fn is_default(&self) -> bool {
        self@ == Seq::<T>::empty()
    }

    fn default_value() -> (r: Vec<T>)
        ensures
            r.is_default(),
    {
        Vec::new()
    }
}

/// The shared slot contract: a slot can attempt to yield a value of its
/// associated type exactly once, consuming its contents in the process.
///
/// Each implementation describes itself through three spec functions, and
/// `try_open` is pinned to them: it succeeds exactly on the states where
/// `open_ok` holds, yields a value admitted by `yields`, and leaves the slot
/// in the state given by `after_open`.
pub trait Container: Sized {
    type Value;

    /// Whether `try_open` succeeds on a slot in this state.  The body given
    /// here is a placeholder for implementations outside the crate, which
    /// cannot state specifications; every implementation in the crate
    /// overrides it.
    open spec fn open_ok(&self) -> bool {
        arbitrary()
    }

    /// Which values `try_open` may yield from this state when it succeeds.
    open spec fn yields(&self, v: Self::Value) -> bool {
        arbitrary()
    }

    /// The slot state that `try_open` leaves behind.
    open spec fn after_open(&self) -> Self {
        arbitrary()
    }

    /// The field recorded on the error when `try_open` fails: none for the
    /// slot wrappers themselves, whose error carries the generic message.
    open spec fn err_field(&self) -> Option<String> {
        arbitrary()
    }

    /// Attempts to yield the slot's value, consuming it.
    fn try_open(&mut self) -> (r: Result<Self::Value, ResolveError>)
        ensures
            *final(self) == old(self).after_open(),
            old(self).open_ok() ==> (r matches Ok(v) && old(self).yields(v)),
            !old(self).open_ok() ==> (r matches Err(e) && e.field == old(self).err_field()),
    ;

    /// Yields the slot's value; callers must know the slot can be opened.
    fn open(&mut self) -> (r: Self::Value)
        requires
            old(self).open_ok(),
        ensures
            *final(self) == old(self).after_open(),
            old(self).yields(r),
    {
        match self.try_open() {
            Ok(v) => v,
            Err(_) => unreached(),
        }
    }

    /// Yields the slot's value, or the value type's default when the slot
    /// cannot be opened.
    fn open_or_default(&mut self) -> (r: Self::Value) where Self::Value: DefaultValue
        ensures
            *final(self) == old(self).after_open(),
            old(self).open_ok() ==> old(self).yields(r),
            !old(self).open_ok() ==> r.is_default(),
    {
        match self.try_open() {
            Ok(v) => v,
            Err(_) => Self::Value::default_value(),
        }
    }

    /// As `try_open`, but a failure is reported against the given field name.
    fn try_open_with_meta(&mut self, field_name: &str) -> (r: Result<Self::Value, ResolveError>)
        ensures
            *final(self) == old(self).after_open(),
            old(self).open_ok() ==> (r matches Ok(v) && old(self).yields(v)),
            !old(self).open_ok() ==> (r matches Err(e) && e.field matches Some(f) && f@
                == field_name@),
    {
        match self.try_open() {
            Ok(v) => Ok(v),
            Err(_) => Err(ResolveError::for_field(field_name)),
        }
    }

    /// As `open`, but named for use on a known field.
    fn open_with_meta(&mut self, field_name: &str) -> (r: Self::Value)
        requires
            old(self).open_ok(),
        ensures
            *final(self) == old(self).after_open(),
            old(self).yields(r),
    {
        match self.try_open_with_meta(field_name) {
            Ok(v) => v,
            Err(_) => unreached(),
        }
    }
}

/// A boolean field is left unwrapped: `false` is already a valid empty
/// default, so the slot is the field itself and opening it copies the value
/// without consuming anything.
impl Container for bool {
    type Value = bool;

    open spec fn open_ok(&self) -> bool {
        true
    }

    open spec fn yields(&self, v: bool) -> bool {
        v == *self
    }

    open spec fn after_open(&self) -> bool {
        *self
    }

    fn try_open(&mut self) -> (r: Result<bool, ResolveError>) {
        Ok(*self)
    }
}

/// The plain optional adapter: a required field is held as `Option` of its
/// original type, and opening the slot takes the value out, leaving the slot
/// empty.  An empty slot fails to open.
impl<V> Container for Option<V> {
    type Value = V;

    open spec fn open_ok(&self) -> bool {
        *self is Some
    }

    open spec fn yields(&self, v: V) -> bool {
        *self matches Some(x) && v == x
    }

    open spec fn after_open(&self) -> Option<V> {
        None
    }

    open spec fn err_field(&self) -> Option<String> {
        None
    }

    fn try_open(&mut self) -> (r: Result<V, ResolveError>) {
        match self.take() {
            Some(x) => Ok(x),
            None => {
                proof {
                    assert(old(self).err_field() is None);
                }
                Err(ResolveError::empty_slot())
            },
        }
    }
}

/// A record type that has a companion shadow type: `Container` is the shadow,
/// and a fresh, all-empty shadow instance can be produced on demand.
pub trait EmptyType: Sized {
    type Container: Container + DefaultValue;

    /// Produces the all-empty shadow struct itself.
    fn new_container() -> (r: Self::Container)
        ensures
            r.is_default(),
    {
        Self::Container::default_value()
    }

    /// Produces an [`Empty`] handle owning a fresh, all-empty shadow struct.
    fn new_empty() -> (r: Empty<Self>)
        ensures
            r.0.is_default(),
    {
        Empty(Self::new_container(), core::marker::PhantomData)
    }
}

} // verus!
