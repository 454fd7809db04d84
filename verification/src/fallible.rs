//! The fail-soft slot: absorbs a failure to open and substitutes a default.

use crate::{Container, DefaultValue, ResolveError};
use vstd::prelude::*;

verus! {

/// Wrapper around an inner slot whose resolution never fails: when the inner
/// slot cannot be opened, the value type's default is substituted instead of
/// propagating an error.  The value type must carry a default; that demand is
/// part of the type, not a runtime check.
pub struct Fallible<T>(pub T);

impl<T: DefaultValue> DefaultValue for Fallible<T> {
    open spec fn is_default(&self) -> bool {
        self.0.is_default()
    }

    fn default_value() -> (r: Fallible<T>)
        ensures
            r.is_default(),
    {
        Fallible(T::default_value())
    }
}

impl<T: Default> Default for Fallible<T> {
    fn default() -> (r: Fallible<T>)
        ensures
            call_ensures(T::default, (), r.0),
    {
        Fallible(T::default())
    }
}

/// Opening a fail-soft slot always succeeds: it yields the inner slot's value
/// when the inner slot opens, and the value type's default otherwise.
impl<V: Container> Container for Fallible<V> where V::Value: DefaultValue {
    type Value = V::Value;

    open spec fn open_ok(&self) -> bool {
        true
    }

    open spec fn yields(&self, v: V::Value) -> bool {
        if self.0.open_ok() {
            self.0.yields(v)
        } else {
            v.is_default()
        }
    }

    open spec fn after_open(&self) -> Fallible<V> {
        Fallible(self.0.after_open())
    }

    fn try_open(&mut self) -> (r: Result<V::Value, ResolveError>) {
        Ok(self.0.open_or_default())
    }
}

} // verus!
