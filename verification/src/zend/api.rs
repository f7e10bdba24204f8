//! Module-global storage and fixed-size function-entry tables.

use vstd::prelude::*;

use crate::functions::{Callable, FunctionEntry};

verus! {

/// A module's global value, written once at startup and read per request.
pub struct ModuleGlobals<T> {
    inner: T,
}

impl<T> ModuleGlobals<T> {
    /// The stored value.
    pub closed spec fn spec_inner(&self) -> T {
        self.inner
    }

    /// Wraps the initial value.
    pub fn new(inner: T) -> (r: ModuleGlobals<T>)
        ensures
            r.spec_inner() == inner,
    {
        ModuleGlobals { inner }
    }

    /// Replaces the stored value.
    pub fn set(&mut self, inner: T)
        ensures
            final(self).spec_inner() == inner,
    {
        self.inner = inner;
    }
}

impl<T: Copy> ModuleGlobals<T> {
    /// Reads the stored value.
    pub fn get(&self) -> (r: T)
        ensures
            r == self.spec_inner(),
    {
        self.inner
    }
}

/// A fixed-size run of function-table rows, as a statically-declared table
/// holds them.
pub struct FunctionEntries<H, const N: usize> {
    inner: [FunctionEntry<H>; N],
}

impl<H: Callable, const N: usize> FunctionEntries<H, N> {
    /// The rows.
    pub closed spec fn spec_entries(&self) -> Seq<FunctionEntry<H>> {
        self.inner@
    }

    /// Wraps a table of rows.
    pub fn new(inner: [FunctionEntry<H>; N]) -> (r: FunctionEntries<H, N>)
        ensures
            r.spec_entries() == inner@,
    {
        FunctionEntries { inner }
    }

    /// Reads one row.
    pub fn get(&self, i: usize) -> (r: &FunctionEntry<H>)
        requires
            i < N,
        ensures
            *r == self.spec_entries()[i as int],
    {
        &self.inner[i]
    }
}

} // verus!
