//! The flattening slot for fields whose declared type was already optional.

use crate::{Container, DefaultValue, ResolveError};
use vstd::prelude::*;

verus! {

/// Slot for a field originally declared as an optional of `T`.
///
/// The slot holds a single level of optionality and its value type is the
/// field's own optional type, so the shadow struct never holds an
/// optional-of-optional for such a field: opening the slot yields exactly the
/// stored `Option<T>`, distinguishing "not set" from "set to an explicit
/// absence" is deliberately not attempted.
pub struct Optional<T>(pub Option<T>);

impl<T> DefaultValue for Optional<T> {
    open spec fn is_default(&self) -> bool {
        self.0 is None
    }

    fn default_value() -> (r: Optional<T>)
        ensures
            r.is_default(),
    {
        Optional(None)
    }
}

impl<T> Default for Optional<T> {
    fn default() -> (r: Optional<T>)
        ensures
            r.0 is None,
    {
        Optional(None)
    }
}

/// Opening a flattening slot always succeeds: the yielded value is the stored
/// option itself (possibly `None`), and the slot is left empty.
impl<V> Container for Optional<V> {
    type Value = Option<V>;

    open spec fn open_ok(&self) -> bool {
        true
    }

    open spec fn yields(&self, v: Option<V>) -> bool {
        v == self.0
    }

    open spec fn after_open(&self) -> Optional<V> {
        Optional(None)
    }

    fn try_open(&mut self) -> (r: Result<Option<V>, ResolveError>) {
        Ok(self.0.take())
    }
}

} // verus!
