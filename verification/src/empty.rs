//! The handle that owns a shadow struct until it is resolved.

use crate::{Container, EmptyType, ResolveError};
use vstd::prelude::*;

verus! {

/// Owns the shadow struct of the record type `F` from construction until a
/// resolution operation consumes it.
pub struct Empty<F: EmptyType>(pub F::Container, pub core::marker::PhantomData<F>);

impl<F: EmptyType> Empty<F> {
    /// Consumes the handle and resolves the shadow into the original record;
    /// callers must know that every required slot is filled.
    pub fn resolve(self) -> (r: <F::Container as Container>::Value)
        requires
            self.0.open_ok(),
        ensures
            self.0.yields(r),
    {
        let mut this = self;
        match this.try_open() {
            Ok(v) => v,
            Err(_) => unreached(),
        }
    }

    /// Consumes the handle and attempts to resolve the shadow into the
    /// original record, returning the aggregated failure as a value.
    pub fn try_resolve(self) -> (r: Result<<F::Container as Container>::Value, ResolveError>)
        ensures
            self.0.open_ok() ==> (r matches Ok(v) && self.0.yields(v)),
            !self.0.open_ok() ==> (r matches Err(e) && e.field == self.0.err_field()),
    {
        let mut this = self;
        this.try_open()
    }
}

/// The handle opens by delegating to the shadow struct it owns.
impl<F: EmptyType> Container for Empty<F> {
    type Value = <F::Container as Container>::Value;

    open spec fn open_ok(&self) -> bool {
        self.0.open_ok()
    }

    open spec fn yields(&self, v: Self::Value) -> bool {
        self.0.yields(v)
    }

    open spec fn after_open(&self) -> Empty<F> {
        Empty(self.0.after_open(), self.1)
    }

    open spec fn err_field(&self) -> Option<String> {
        self.0.err_field()
    }

    fn try_open(&mut self) -> (r: Result<Self::Value, ResolveError>) {
        let r = self.0.try_open();
        proof {
            assert(old(self).err_field() == old(self).0.err_field());
        }
        r
    }
}

} // verus!
