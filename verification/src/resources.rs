//! Runtime resource handles: a typed payload behind a numeric handle.

use vstd::prelude::*;

verus! {

/// A runtime resource: the numeric handle the engine assigned and the
/// typed payload it carries.
pub struct ZRes<T> {
    handle: i64,
    value: T,
}

impl<T> ZRes<T> {
    /// The resource's numeric handle.
    pub closed spec fn spec_handle(&self) -> i64 {
        self.handle
    }

    /// The payload.
    pub closed spec fn spec_value(&self) -> T {
        self.value
    }

    /// Wraps a payload under its handle.
    pub fn new(handle: i64, value: T) -> (r: ZRes<T>)
        ensures
            r.spec_handle() == handle,
            r.spec_value() == value,
    {
        ZRes { handle, value }
    }

    /// The resource's numeric handle.
    pub fn handle(&self) -> (r: i64)
        ensures
            r == self.spec_handle(),
    {
        self.handle
    }

    /// Reads the payload.
    pub fn value(&self) -> (r: &T)
        ensures
            *r == self.spec_value(),
    {
        &self.value
    }

    /// Mutable access to the payload.
    pub fn value_mut(&mut self) -> (r: &mut T)
        ensures
            *r == old(self).spec_value(),
            final(self).spec_value() == *final(r),
            final(self).spec_handle() == old(self).spec_handle(),
    {
        &mut self.value
    }
}

/// A persistent resource: a payload registered under a hash key so that it
/// outlives the request, as persistent connections are.
pub struct ZPersistentResource<T> {
    hash: String,
    name: String,
    value: T,
}

impl<T> ZPersistentResource<T> {
    /// The hash key the resource is registered under.
    pub closed spec fn spec_hash(&self) -> Seq<char> {
        self.hash@
    }

    /// The resource-type name it was registered with.
    pub closed spec fn spec_name(&self) -> Seq<char> {
        self.name@
    }

    /// The payload.
    pub closed spec fn spec_value(&self) -> T {
        self.value
    }

    /// Registers a payload as a persistent resource under the hash key.
    pub fn new(hash: String, name: String, value: T) -> (r: ZPersistentResource<T>)
        ensures
            r.spec_hash() == hash@,
            r.spec_name() == name@,
            r.spec_value() == value,
    {
        ZPersistentResource { hash, name, value }
    }

    /// Reads the payload.
    pub fn value(&self) -> (r: &T)
        ensures
            *r == self.spec_value(),
    {
        &self.value
    }

    /// The hash key the resource is registered under.
    pub fn hash(&self) -> (r: &String)
        ensures
            r@ == self.spec_hash(),
    {
        &self.hash
    }
}

} // verus!
