//! Runtime objects, with and without an attached state payload.
//!
//! A [`StateObject`] is the model of a state-bearing object: the runtime's
//! object header — here the class handle and the property table — followed
//! by the typed payload the allocator constructed.  Exactly one payload
//! belongs to each instance; it lives as long as the object and is dropped
//! with it, exactly once, by ownership.

use vstd::prelude::*;

use crate::arrays::{spec_get, spec_insert, KeyV, ZArray};
use crate::values::Val;

verus! {

/// A plain runtime object: its class handle and its property table.
pub struct ZObject {
    pub(crate) class_id: usize,
    pub(crate) properties: ZArray,
}

impl ZObject {
    /// Assembles an object header from its class handle and its property
    /// table.
    pub fn new(class_id: usize, properties: ZArray) -> (r: ZObject)
        ensures
            r.spec_class_id() == class_id,
            r.spec_properties() == properties@,
            properties.wf() ==> r.wf(),
    {
        ZObject { class_id, properties }
    }

    /// The handle of the class the object instantiates.
    pub closed spec fn spec_class_id(&self) -> usize {
        self.class_id
    }

    /// The property table, in declaration order.
    pub closed spec fn spec_properties(&self) -> Seq<(KeyV, crate::values::ValV)> {
        self.properties@
    }

    /// A well-formed object carries a well-formed property table.
    pub closed spec fn wf(&self) -> bool {
        self.properties.wf()
    }

    /// The handle of the class the object instantiates.
    pub fn class_id(&self) -> (r: usize)
        ensures
            r == self.spec_class_id(),
    {
        self.class_id
    }

    /// Reads a property.
    pub fn get_property(&self, name: &str) -> (r: Option<&Val>)
        requires
            self.wf(),
        ensures
            match r {
                Some(v) => spec_get(self.spec_properties(), KeyV::Str(name@)) == Some(v@),
                None => spec_get(self.spec_properties(), KeyV::Str(name@)) is None,
            },
    {
        let key = crate::arrays::Key::Str(name.to_owned());
        self.properties.get(&key)
    }

    /// Writes a property: in place when declared, appended otherwise.
    pub fn set_property(&mut self, name: &str, value: Val)
        requires
            old(self).wf(),
        ensures
            final(self).wf(),
            final(self).spec_class_id() == old(self).spec_class_id(),
            final(self).spec_properties() == spec_insert(
                old(self).spec_properties(),
                KeyV::Str(name@),
                value@,
            ),
    {
        self.properties.insert(crate::arrays::InsertKey::Str(name.to_owned()), value);
    }
}

/// A state-bearing object: the object header and the typed payload stored
/// behind it.
pub struct StateObject<T> {
    pub(crate) object: ZObject,
    pub(crate) state: T,
}

impl<T> StateObject<T> {
    /// The object header: class handle and property table.
    pub closed spec fn spec_object(&self) -> ZObject {
        self.object
    }

    /// The payload.
    pub closed spec fn spec_state(&self) -> T {
        self.state
    }

    /// A well-formed state object carries a well-formed property table.
    pub open spec fn wf(&self) -> bool {
        self.spec_object().wf()
    }

    /// Assembles an object from its header and its payload.  The allocator
    /// uses this once per instance.
    pub fn from_parts(object: ZObject, state: T) -> (r: StateObject<T>)
        ensures
            r.spec_object() == object,
            r.spec_state() == state,
    {
        StateObject { object, state }
    }

    /// Reads the payload back through the state accessor.
    pub fn state(&self) -> (r: &T)
        ensures
            *r == self.spec_state(),
    {
        &self.state
    }

    /// Mutable access to the payload.
    pub fn state_mut(&mut self) -> (r: &mut T)
        ensures
            *r == old(self).spec_state(),
            final(self).spec_state() == *final(r),
            final(self).spec_object() == old(self).spec_object(),
    {
        &mut self.state
    }

    /// The object header.
    pub fn as_object(&self) -> (r: &ZObject)
        ensures
            *r == self.spec_object(),
    {
        &self.object
    }

    /// Reads a property of the object header.
    pub fn get_property(&self, name: &str) -> (r: Option<&Val>)
        requires
            self.wf(),
        ensures
            match r {
                Some(v) => spec_get(self.spec_object().spec_properties(), KeyV::Str(name@))
                    == Some(v@),
                None => spec_get(self.spec_object().spec_properties(), KeyV::Str(name@)) is None,
            },
    {
        self.object.get_property(name)
    }

    /// Writes a property of the object header.
    pub fn set_property(&mut self, name: &str, value: Val)
        requires
            old(self).wf(),
        ensures
            final(self).wf(),
            final(self).spec_state() == old(self).spec_state(),
            final(self).spec_object().spec_class_id() == old(self).spec_object().spec_class_id(),
            final(self).spec_object().spec_properties() == spec_insert(
                old(self).spec_object().spec_properties(),
                KeyV::Str(name@),
                value@,
            ),
    {
        self.object.set_property(name, value);
    }

    /// Consumes the object and hands the payload to the destructor path:
    /// the free hook drops the payload exactly once, by ownership.
    pub fn into_state(self) -> (r: T)
        ensures
            r == self.spec_state(),
    {
        self.state
    }
}

} // verus!
