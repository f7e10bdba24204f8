//! The runtime's tagged-union value cell.
//!
//! A [`Val`] owns its payload: dropping the cell releases the payload, and
//! cloning it duplicates the payload structurally, so two cells never share
//! mutable state.  The mathematical model of a cell is [`ValV`]: the tag
//! together with the payload it carries, with strings seen as sequences of
//! characters and arrays as key/value sequences in insertion order.

use vstd::prelude::*;

use crate::arrays::{KeyV, ZArray};
use crate::errors::TypeMismatchError;
use crate::functions::ZFunc;
use crate::strings::{i64_to_string, spec_i64_string};

verus! {

/// Mathematical model of a value cell: the tag and the payload agree by
/// construction.
pub enum ValV {
    /// The null value.
    Null,
    /// A boolean.
    Bool(bool),
    /// A signed 64-bit integer.
    Long(i64),
    /// A byte string, seen as its characters.
    Str(Seq<char>),
    /// An array: key/value pairs in insertion order.
    Arr(Seq<(KeyV, ValV)>),
    /// A handle to a runtime object.
    Obj(u64),
    /// A handle to a runtime resource.
    Res(i64),
}

/// An owned value cell: a tagged union over the runtime's scalar and
/// container payloads.
#[derive(Debug)]
pub enum Val {
    /// The null value.
    Null,
    /// A boolean.
    Bool(bool),
    /// A signed 64-bit integer.
    Long(i64),
    /// A byte string.
    Str(String),
    /// An owned array cell.
    Arr(ZArray),
    /// A handle to a runtime object.
    Obj(u64),
    /// A handle to a runtime resource.
    Res(i64),
}

impl View for Val {
    type V = ValV;

    closed spec fn view(&self) -> ValV
        decreases self,
    {
        match self {
            Val::Null => ValV::Null,
            Val::Bool(b) => ValV::Bool(*b),
            Val::Long(n) => ValV::Long(*n),
            Val::Str(s) => ValV::Str(s@),
            Val::Arr(a) => ValV::Arr(a@),
            Val::Obj(h) => ValV::Obj(*h),
            Val::Res(h) => ValV::Res(*h),
        }
    }
}

impl Val {
    /// A fresh cell: the runtime zero-initializes a value slot, which reads
    /// as null.
    pub fn new() -> (r: Val)
        ensures
            r@ == ValV::Null,
    {
        Val::Null
    }

    /// The null value.
    pub fn null() -> (r: Val)
        ensures
            r@ == ValV::Null,
    {
        Val::Null
    }

    /// The name of the type the cell's tag announces.
    pub fn tag_name(&self) -> (r: &'static str)
        ensures
            r@ == spec_tag_name(self@),
    {
        match self {
            Val::Null => "null",
            Val::Bool(_) => "bool",
            Val::Long(_) => "int",
            Val::Str(_) => "string",
            Val::Arr(_) => "array",
            Val::Obj(_) => "object",
            Val::Res(_) => "resource",
        }
    }

    /// Reads the integer payload; fails unless the tag is the integer tag.
    pub fn as_i64(&self) -> (r: Result<i64, TypeMismatchError>)
        ensures
            match r {
                Ok(n) => self@ == ValV::Long(n),
                Err(e) => !(self@ is Long) && e.spec_expected() == "int"@ && e.spec_actual()
                    == spec_tag_name(self@),
            },
    {
        match self {
            Val::Long(n) => Ok(*n),
            _ => Err(TypeMismatchError::new("int".to_owned(), self.tag_name().to_owned())),
        }
    }

    /// Reads the boolean payload; fails unless the tag is a boolean tag.
    pub fn as_bool(&self) -> (r: Result<bool, TypeMismatchError>)
        ensures
            match r {
                Ok(b) => self@ == ValV::Bool(b),
                Err(e) => !(self@ is Bool) && e.spec_expected() == "bool"@ && e.spec_actual()
                    == spec_tag_name(self@),
            },
    {
        match self {
            Val::Bool(b) => Ok(*b),
            _ => Err(TypeMismatchError::new("bool".to_owned(), self.tag_name().to_owned())),
        }
    }

    /// Borrows the string payload; fails unless the tag is the string tag.
    pub fn as_str(&self) -> (r: Result<&String, TypeMismatchError>)
        ensures
            match r {
                Ok(s) => self@ == ValV::Str(s@),
                Err(e) => !(self@ is Str) && e.spec_expected() == "string"@ && e.spec_actual()
                    == spec_tag_name(self@),
            },
    {
        match self {
            Val::Str(s) => Ok(s),
            _ => Err(TypeMismatchError::new("string".to_owned(), self.tag_name().to_owned())),
        }
    }

    /// Borrows the array payload; fails unless the tag is the array tag.
    pub fn as_arr(&self) -> (r: Result<&ZArray, TypeMismatchError>)
        ensures
            match r {
                Ok(a) => self@ == ValV::Arr(a@),
                Err(e) => !(self@ is Arr) && e.spec_expected() == "array"@ && e.spec_actual()
                    == spec_tag_name(self@),
            },
    {
        match self {
            Val::Arr(a) => Ok(a),
            _ => Err(TypeMismatchError::new("array".to_owned(), self.tag_name().to_owned())),
        }
    }

    /// Coerces the cell to the string tag, in place.  This is the one
    /// destructive coercion: it succeeds exactly on scalar tags, rewriting
    /// the cell's tag and payload; on container and handle tags it fails
    /// and leaves the cell as it was.
    pub fn convert_to_string(&mut self) -> (r: Result<(), TypeMismatchError>)
        ensures
            match r {
                Ok(()) => is_scalar_tag(old(self)@) && final(self)@ == ValV::Str(
                    spec_scalar_string(old(self)@),
                ),
                Err(e) => !is_scalar_tag(old(self)@) && final(self)@ == old(self)@
                    && e.spec_expected() == "string"@ && e.spec_actual() == spec_tag_name(
                    old(self)@,
                ),
            },
    {
        match &*self {
            Val::Null => {
                *self = Val::Str(String::new());
                Ok(())
            },
            Val::Bool(b) => {
                let s = if *b {
                    "1".to_owned()
                } else {
                    String::new()
                };
                proof {
                    reveal_strlit("1");
                    assert(s@ =~= spec_scalar_string(old(self)@));
                }
                *self = Val::Str(s);
                Ok(())
            },
            Val::Long(n) => {
                *self = Val::Str(i64_to_string(*n));
                Ok(())
            },
            Val::Str(_) => Ok(()),
            _ => Err(TypeMismatchError::new("string".to_owned(), self.tag_name().to_owned())),
        }
    }

    /// Coerces the cell to the string tag and hands the string out.  As
    /// with [`Val::convert_to_string`], the coercion is destructive and
    /// succeeds exactly on scalar tags.
    pub fn as_string(&mut self) -> (r: Result<String, TypeMismatchError>)
        ensures
            match r {
                Ok(s) => is_scalar_tag(old(self)@) && s@ == spec_scalar_string(old(self)@)
                    && final(self)@ == ValV::Str(s@),
                Err(e) => !is_scalar_tag(old(self)@) && final(self)@ == old(self)@
                    && e.spec_expected() == "string"@ && e.spec_actual() == spec_tag_name(
                    old(self)@,
                ),
            },
    {
        match self.convert_to_string() {
            Ok(()) => match &*self {
                Val::Str(s) => Ok(s.clone()),
                _ => vstd::pervasive::unreached(),
            },
            Err(e) => Err(e),
        }
    }
}

/// A native call frame, as the dispatch shim receives it: the descriptor
/// of the function called and the arguments the call carried.
pub struct ExecuteData {
    pub(crate) func: ZFunc,
    pub(crate) args: Vec<Val>,
}

impl ExecuteData {
    /// Builds a call frame from the function descriptor and the arguments.
    pub fn new(func: ZFunc, args: Vec<Val>) -> (r: ExecuteData)
        ensures
            r.spec_func() == func,
            r.spec_args() == args@,
    {
        ExecuteData { func, args }
    }

    /// The descriptor of the function called.
    pub closed spec fn spec_func(&self) -> ZFunc {
        self.func
    }

    /// The arguments the call carried.
    pub closed spec fn spec_args(&self) -> Seq<Val> {
        self.args@
    }

    /// The count of arguments the call actually carried.
    pub fn num_args(&self) -> (r: usize)
        ensures
            r == self.spec_args().len(),
    {
        self.args.len()
    }

    /// The declared argument count of the function called.
    pub fn common_num_args(&self) -> (r: u32)
        ensures
            r == self.spec_func().spec_num_args(),
    {
        self.func.num_args()
    }

    /// The declared required argument count of the function called.
    pub fn common_required_num_args(&self) -> (r: u32)
        ensures
            r == self.spec_func().spec_required_num_args(),
    {
        self.func.required_num_args()
    }

    /// The descriptor of the function called.
    pub fn func(&self) -> (r: &ZFunc)
        ensures
            *r == self.spec_func(),
    {
        &self.func
    }

    /// Crate-internal bridge: the spec accessors read the fields.
    pub(crate) proof fn lemma_parts(&self)
        ensures
            self.spec_func() == self.func,
            self.spec_args() == self.args@,
    {
    }

    /// Takes the call frame's arguments out, leaving an empty frame, as
    /// the shim collects them for the handler.
    pub fn get_parameters_array(&mut self) -> (r: Vec<Val>)
        ensures
            r@ == old(self).spec_args(),
            final(self).spec_args() == Seq::<Val>::empty(),
            final(self).spec_func() == old(self).spec_func(),
    {
        let mut args: Vec<Val> = Vec::new();
        core::mem::swap(&mut args, &mut self.args);
        args
    }

    /// The fully-qualified name of the function called.
    pub fn get_function_or_method_name(&self) -> (r: String)
        ensures
            r@ == self.spec_func().spec_name(),
    {
        self.func.get_function_or_method_name()
    }
}

/// The type name the tag announces.
pub open spec fn spec_tag_name(v: ValV) -> Seq<char> {
    match v {
        ValV::Null => "null"@,
        ValV::Bool(_) => "bool"@,
        ValV::Long(_) => "int"@,
        ValV::Str(_) => "string"@,
        ValV::Arr(_) => "array"@,
        ValV::Obj(_) => "object"@,
        ValV::Res(_) => "resource"@,
    }
}

/// Whether the tag is a scalar tag, which the destructive string coercion
/// accepts.
pub open spec fn is_scalar_tag(v: ValV) -> bool {
    match v {
        ValV::Null => true,
        ValV::Bool(_) => true,
        ValV::Long(_) => true,
        ValV::Str(_) => true,
        _ => false,
    }
}

/// The string a scalar coerces to: the empty string for null and false,
/// `"1"` for true, the decimal rendering for an integer, and a string
/// itself.
pub open spec fn spec_scalar_string(v: ValV) -> Seq<char> {
    match v {
        ValV::Null => Seq::empty(),
        ValV::Bool(b) => if b {
            seq!['1']
        } else {
            Seq::empty()
        },
        ValV::Long(n) => spec_i64_string(n as int),
        ValV::Str(s) => s,
        _ => Seq::empty(),
    }
}

/// A native value that can be written into a value cell, as handler results
/// and default values are.
pub trait SetVal: Sized {
    /// The cell this native value writes.
    spec fn val_view(self) -> ValV;

    /// Writes this value into the cell, replacing what the cell held.
    fn set_val(self, val: &mut Val)
        ensures
            final(val)@ == self.val_view(),
    ;
}

impl SetVal for () {
    open spec fn val_view(self) -> ValV {
        ValV::Null
    }

    fn set_val(self, val: &mut Val) {
        *val = Val::Null;
    }
}

impl SetVal for bool {
    open spec fn val_view(self) -> ValV {
        ValV::Bool(self)
    }

    fn set_val(self, val: &mut Val) {
        *val = Val::Bool(self);
    }
}

impl SetVal for i32 {
    open spec fn val_view(self) -> ValV {
        ValV::Long(self as i64)
    }

    fn set_val(self, val: &mut Val) {
        *val = Val::Long(self as i64);
    }
}

impl SetVal for u32 {
    open spec fn val_view(self) -> ValV {
        ValV::Long(self as i64)
    }

    fn set_val(self, val: &mut Val) {
        *val = Val::Long(self as i64);
    }
}

impl SetVal for i64 {
    open spec fn val_view(self) -> ValV {
        ValV::Long(self)
    }

    fn set_val(self, val: &mut Val) {
        *val = Val::Long(self);
    }
}

impl SetVal for &str {
    open spec fn val_view(self) -> ValV {
        ValV::Str(self@)
    }

    fn set_val(self, val: &mut Val) {
        *val = Val::Str(self.to_owned());
    }
}

impl SetVal for String {
    open spec fn val_view(self) -> ValV {
        ValV::Str(self@)
    }

    fn set_val(self, val: &mut Val) {
        *val = Val::Str(self);
    }
}

impl SetVal for ZArray {
    open spec fn val_view(self) -> ValV {
        ValV::Arr(self@)
    }

    fn set_val(self, val: &mut Val) {
        *val = Val::Arr(self);
    }
}

impl SetVal for Val {
    open spec fn val_view(self) -> ValV {
        self@
    }

    fn set_val(self, val: &mut Val) {
        *val = self;
    }
}

impl<T: SetVal> SetVal for Option<T> {
    open spec fn val_view(self) -> ValV {
        match self {
            Some(t) => t.val_view(),
            None => ValV::Null,
        }
    }

    fn set_val(self, val: &mut Val) {
        match self {
            Some(t) => t.set_val(val),
            None => {
                *val = Val::Null;
            },
        }
    }
}

/// Round trip of a 64-bit integer through the tagged union: writing `n`
/// yields exactly the integer tag with payload `n`, and the integer tag is
/// injective, so reading it back loses nothing anywhere in the `i64`
/// range.  Reading is pinned by [`Val::as_i64`]: on a cell carrying
/// `Long(n)` it returns exactly `Ok(n)`.
pub proof fn lemma_long_round_trip(n: i64)
    ensures
        SetVal::val_view(n) == ValV::Long(n),
        forall|m: i64| #[trigger] SetVal::val_view(m) == SetVal::val_view(n) ==> m == n,
{
}

/// Duplicates a value cell structurally: the copy carries the same tag and
/// an equal payload, and shares nothing mutable with the original.
pub fn val_clone(v: &Val) -> (r: Val)
    ensures
        r@ == v@,
    decreases v,
{
    match v {
        Val::Null => Val::Null,
        Val::Bool(b) => Val::Bool(*b),
        Val::Long(n) => Val::Long(*n),
        Val::Str(s) => Val::Str(s.clone()),
        Val::Arr(a) => Val::Arr(crate::arrays::arr_clone(a)),
        Val::Obj(h) => Val::Obj(*h),
        Val::Res(h) => Val::Res(*h),
    }
}

impl Clone for Val {
    /// See [`val_clone`].
    fn clone(&self) -> (r: Val)
        ensures
            r@ == self@,
    {
        val_clone(self)
    }
}

} // verus!
