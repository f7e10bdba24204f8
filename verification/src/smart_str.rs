//! The engine's string builder: an owned buffer with an explicit
//! allocation size.

use vstd::prelude::*;

use crate::strings::{i64_to_string, spec_i64_string, spec_u64_string, u64_to_string};

verus! {

/// A string builder: the built text and the bytes the builder has asked
/// for.  Appending past the asked-for room grows the allocation to fit.
pub struct ZSmartStr {
    inner: String,
    allocated: usize,
}

impl ZSmartStr {
    /// The built text.
    pub closed spec fn spec_str(&self) -> Seq<char> {
        self.inner@
    }

    /// The allocation size the builder holds.
    pub closed spec fn spec_allocated(&self) -> usize {
        self.allocated
    }

    /// A fresh, empty builder with no allocation.
    pub fn new() -> (r: ZSmartStr)
        ensures
            r.spec_str() == Seq::<char>::empty(),
            r.spec_allocated() == 0,
    {
        ZSmartStr { inner: String::new(), allocated: 0 }
    }

    /// An empty builder with room for `n` bytes asked up front.
    pub fn with_capacity(n: usize) -> (r: ZSmartStr)
        ensures
            r.spec_str() == Seq::<char>::empty(),
            r.spec_allocated() == n,
    {
        ZSmartStr { inner: String::new(), allocated: n }
    }

    /// Asks for `n` more bytes of room.
    pub fn extend(&mut self, n: usize)
        requires
            old(self).spec_allocated() + n <= usize::MAX,
        ensures
            final(self).spec_str() == old(self).spec_str(),
            final(self).spec_allocated() == old(self).spec_allocated() + n,
    {
        self.allocated = self.allocated + n;
    }

    /// Length of the built text, in characters.
    pub fn len(&self) -> (r: usize)
        ensures
            r == self.spec_str().len(),
    {
        self.inner.as_str().unicode_len()
    }

    /// Whether nothing has been appended yet.
    pub fn is_empty(&self) -> (r: bool)
        ensures
            r == (self.spec_str().len() == 0),
    {
        self.inner.as_str().is_empty()
    }

    /// The allocation size the builder holds.
    pub fn allocated_size(&self) -> (r: usize)
        ensures
            r == self.spec_allocated(),
    {
        self.allocated
    }

    /// Appends the decimal rendering of a signed integer.
    pub fn append_long(&mut self, num: i64)
        ensures
            final(self).spec_str() == old(self).spec_str() + spec_i64_string(num as int),
            final(self).spec_allocated() == old(self).spec_allocated(),
    {
        let rendered = i64_to_string(num);
        self.inner.append(rendered.as_str());
    }

    /// Appends the decimal rendering of an unsigned integer.
    pub fn append_unsigned(&mut self, num: u64)
        ensures
            final(self).spec_str() == old(self).spec_str() + spec_u64_string(num as nat),
            final(self).spec_allocated() == old(self).spec_allocated(),
    {
        let rendered = u64_to_string(num);
        self.inner.append(rendered.as_str());
    }

    /// Appends a string.
    pub fn append_string(&mut self, s: &str)
        ensures
            final(self).spec_str() == old(self).spec_str() + s@,
            final(self).spec_allocated() == old(self).spec_allocated(),
    {
        self.inner.append(s);
    }

    /// Appends one character.
    pub fn append_char(&mut self, ch: char)
        ensures
            final(self).spec_str() == old(self).spec_str().push(ch),
            final(self).spec_allocated() == old(self).spec_allocated(),
    {
        crate::strings::push_char(&mut self.inner, ch);
    }

    /// Appends the NUL terminator, making the text a valid C string.
    pub fn append_null_byte(&mut self)
        ensures
            final(self).spec_str() == old(self).spec_str().push('\0'),
            final(self).spec_allocated() == old(self).spec_allocated(),
    {
        crate::strings::push_char(&mut self.inner, '\0');
    }

    /// Appends another builder's text.
    pub fn append_smart_str(&mut self, other: &ZSmartStr)
        ensures
            final(self).spec_str() == old(self).spec_str() + other.spec_str(),
            final(self).spec_allocated() == old(self).spec_allocated(),
    {
        self.inner.append(other.inner.as_str());
    }

    /// Finishes the builder and hands the built text out.
    pub fn build(self) -> (r: String)
        ensures
            r@ == self.spec_str(),
    {
        self.inner
    }
}

impl Default for ZSmartStr {
    /// A fresh, empty builder, as zero-initializing the struct gives.
    fn default() -> (r: ZSmartStr)
        ensures
            r.spec_str() == Seq::<char>::empty(),
            r.spec_allocated() == 0,
    {
        ZSmartStr::new()
    }
}

} // verus!
