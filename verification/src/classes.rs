//! Class description, registration, and the state-bearing object
//! allocator.
//!
//! A [`ClassEntity`] accumulates methods, properties, parent and interface
//! references; nothing touches the runtime until [`ClassEntity::register`]
//! runs, once, at module startup.  Registration materializes a
//! [`ClassEntry`] in the [`ClassTable`], resolves the late-bound parent by
//! name, and freezes the method table.
//!
//! The frozen table carries, after the visible method rows, a sentinel row
//! and then the hidden rows: the state constructor and the state-cloner
//! mark.  The count and order of these hidden rows is a single, versioned
//! contract — [`table_wf`] — shared by the write side
//! ([`ClassEntity::function_entries`]) and the read side
//! ([`create_object`]), so the allocator provably recovers the constructor
//! it was given and never reads a payload from the wrong slot.

use vstd::prelude::*;

use crate::arrays::{spec_get, spec_insert, KeyV, ZArray};
use crate::errors::{
    ClassNotFoundError, ExceptionV, PhpException, RegistrationError, Throwable,
};
use crate::functions::{outcome_view, required_count, spec_required_count, vals_view, Argument};
use crate::objects::{StateObject, ZObject};
use crate::values::{Val, ValV};

verus! {

/// Flag bit: public.
pub const ZEND_ACC_PUBLIC: u32 = 1;

/// Flag bit: protected.
pub const ZEND_ACC_PROTECTED: u32 = 2;

/// Flag bit: private.
pub const ZEND_ACC_PRIVATE: u32 = 4;

/// Flag bit: static.
pub const ZEND_ACC_STATIC: u32 = 16;

/// Flag bit: final.
pub const ZEND_ACC_FINAL: u32 = 32;

/// Flag bit: abstract.
pub const ZEND_ACC_ABSTRACT: u32 = 64;

/// Raw visibility flag bits.
pub type RawVisibility = u32;

/// Visibility of a class member.
pub enum Visibility {
    /// Public.
    Public,
    /// Protected.
    Protected,
    /// Private.
    Private,
}

impl Visibility {
    /// The flag bit the visibility contributes.
    pub open spec fn spec_raw(&self) -> u32 {
        match self {
            Visibility::Public => ZEND_ACC_PUBLIC,
            Visibility::Protected => ZEND_ACC_PROTECTED,
            Visibility::Private => ZEND_ACC_PRIVATE,
        }
    }

    /// The flag bit the visibility contributes.
    pub fn to_raw(&self) -> (r: RawVisibility)
        ensures
            r == self.spec_raw(),
    {
        match self {
            Visibility::Public => ZEND_ACC_PUBLIC,
            Visibility::Protected => ZEND_ACC_PROTECTED,
            Visibility::Private => ZEND_ACC_PRIVATE,
        }
    }
}

impl Default for Visibility {
    /// Members default to public.
    fn default() -> (r: Visibility)
        ensures
            r is Public,
    {
        Visibility::Public
    }
}

/// A scalar default for a declared property: the runtime only accepts
/// scalars there.
#[derive(Debug)]
pub enum Scalar {
    /// Null.
    Null,
    /// A boolean.
    Bool(bool),
    /// A signed 64-bit integer.
    I64(i64),
    /// A string.
    String(String),
}

impl Scalar {
    /// The value cell the scalar declares.
    pub open spec fn spec_val_view(&self) -> ValV {
        match self {
            Scalar::Null => ValV::Null,
            Scalar::Bool(b) => ValV::Bool(*b),
            Scalar::I64(n) => ValV::Long(*n),
            Scalar::String(s) => ValV::Str(s@),
        }
    }

    /// Builds the value cell the scalar declares.
    pub fn to_val(&self) -> (r: Val)
        ensures
            r@ == self.spec_val_view(),
    {
        let mut v = Val::null();
        match self {
            Scalar::Null => (),
            Scalar::Bool(b) => crate::values::SetVal::set_val(*b, &mut v),
            Scalar::I64(n) => crate::values::SetVal::set_val(*n, &mut v),
            Scalar::String(s) => crate::values::SetVal::set_val(s.clone(), &mut v),
        }
        v
    }
}

/// A property declaration: name, visibility bits, scalar default.
#[derive(Debug)]
pub struct PropertyEntity {
    name: String,
    visibility: RawVisibility,
    value: Scalar,
}

impl PropertyEntity {
    /// Declares a property.
    pub fn new(name: String, visibility: Visibility, value: Scalar) -> (r: PropertyEntity)
        ensures
            r.spec_name() == name@,
            r.spec_visibility() == visibility.spec_raw(),
            r.spec_value() == value.spec_val_view(),
    {
        let raw = visibility.to_raw();
        PropertyEntity { name, visibility: raw, value }
    }

    /// The property's name.
    pub closed spec fn spec_name(&self) -> Seq<char> {
        self.name@
    }

    /// The property's visibility bits.
    pub closed spec fn spec_visibility(&self) -> RawVisibility {
        self.visibility
    }

    /// The declared default, as a value-cell view.
    pub closed spec fn spec_value(&self) -> ValV {
        self.value.spec_val_view()
    }

    /// Marks the property static.
    pub fn set_vis_static(&mut self)
        ensures
            final(self).spec_name() == old(self).spec_name(),
            final(self).spec_value() == old(self).spec_value(),
            final(self).spec_visibility() == (old(self).spec_visibility() | ZEND_ACC_STATIC),
    {
        self.visibility = self.visibility | ZEND_ACC_STATIC;
    }

    /// The property's name.
    pub fn name(&self) -> (r: &String)
        ensures
            r@ == self.spec_name(),
    {
        &self.name
    }

    /// Builds the default value cell.
    pub fn default_val(&self) -> (r: Val)
        ensures
            r@ == self.spec_value(),
    {
        self.value.to_val()
    }
}

/// The constructor of a class's state payload.  The user provides one per
/// state-bearing class; `constructs` is the implementor's own statement of
/// which payloads it may produce.
pub trait StateConstructor {
    /// The payload type constructed.
    type State;

    /// Which payloads a run of the constructor may produce.  The default
    /// admits any; a verified implementor overrides it with its own
    /// statement.
    open spec fn constructs(&self, state: Self::State) -> bool {
        true
    }

    /// Produces the payload for one new instance.
    fn construct(&self) -> (t: Self::State)
        ensures
            self.constructs(t),
    ;
}

/// The state constructor of a class that owns no state.
pub struct UnitStateConstructor;

impl StateConstructor for UnitStateConstructor {
    type State = ();

    open spec fn constructs(&self, state: ()) -> bool {
        true
    }

    fn construct(&self) -> (t: ()) {
        ()
    }
}

/// A typed method handler.  Implementors are the user's closures adapted to
/// this one calling interface; `call_post` is the implementor's own
/// statement of what a call establishes over the handler, the receiver,
/// the arguments and the outcome.
pub trait Handler: Sized {
    /// The state payload of the receiving object.
    type State;

    /// What one call establishes.  The default states nothing; a verified
    /// implementor overrides it with its own statement.
    open spec fn call_post(
        &self,
        post: Self,
        this_pre: StateObject<Self::State>,
        this_post: StateObject<Self::State>,
        args_pre: Seq<ValV>,
        args_post: Seq<ValV>,
        ret: Result<ValV, ExceptionV>,
    ) -> bool {
        true
    }

    /// Handles one method call on the receiver.
    fn execute(&mut self, this: &mut StateObject<Self::State>, args: &mut Vec<Val>) -> (r: Result<
        Val,
        PhpException,
    >)
        ensures
            old(self).call_post(
                *final(self),
                *old(this),
                *final(this),
                vals_view(old(args)@),
                vals_view(final(args)@),
                outcome_view(r),
            ),
    ;
}

/// A method declaration: name, optional handler — an abstract method has
/// none — visibility bits, and argument declarations.
pub struct MethodEntity<M> {
    name: String,
    handler: Option<M>,
    visibility: RawVisibility,
    required_num_args: u32,
    num_args: u32,
}

impl<M> MethodEntity<M> {
    /// Declares a method.
    pub fn new(name: String, handler: Option<M>, visibility: Visibility, arguments: Vec<
        Argument,
    >) -> (r: MethodEntity<M>)
        requires
            arguments@.len() <= u32::MAX,
        ensures
            r.spec_name() == name@,
            r.spec_handler() == handler,
            r.spec_visibility() == visibility.spec_raw(),
            r.spec_num_args() == arguments@.len(),
            r.spec_required_num_args() == spec_required_count(arguments@),
    {
        let required = required_count(&arguments);
        let raw = visibility.to_raw();
        MethodEntity {
            name,
            handler,
            visibility: raw,
            required_num_args: required as u32,
            num_args: arguments.len() as u32,
        }
    }

    /// The method's name.
    pub closed spec fn spec_name(&self) -> Seq<char> {
        self.name@
    }

    /// The typed handler, if the method has one.
    pub closed spec fn spec_handler(&self) -> Option<M> {
        self.handler
    }

    /// The visibility bits.
    pub closed spec fn spec_visibility(&self) -> RawVisibility {
        self.visibility
    }

    /// The declared argument count.
    pub closed spec fn spec_num_args(&self) -> u32 {
        self.num_args
    }

    /// The required argument count.
    pub closed spec fn spec_required_num_args(&self) -> u32 {
        self.required_num_args
    }

    /// The method's name.
    pub fn name(&self) -> (r: &String)
        ensures
            r@ == self.spec_name(),
    {
        &self.name
    }

    /// The required argument count.
    pub fn required_num_args(&self) -> (r: u32)
        ensures
            r == self.spec_required_num_args(),
    {
        self.required_num_args
    }

    /// Whether the declaration carries a handler.
    pub fn has_handler(&self) -> (r: bool)
        ensures
            r == (self.spec_handler() is Some),
    {
        self.handler.is_some()
    }

    /// Adds the static bit.
    pub fn set_vis_static(&mut self)
        ensures
            final(self).spec_name() == old(self).spec_name(),
            final(self).spec_handler() == old(self).spec_handler(),
            final(self).spec_num_args() == old(self).spec_num_args(),
            final(self).spec_required_num_args() == old(self).spec_required_num_args(),
            final(self).spec_visibility() == (old(self).spec_visibility() | ZEND_ACC_STATIC),
    {
        self.visibility = self.visibility | ZEND_ACC_STATIC;
    }

    /// Adds the abstract bit.
    pub fn set_vis_abstract(&mut self)
        ensures
            final(self).spec_name() == old(self).spec_name(),
            final(self).spec_handler() == old(self).spec_handler(),
            final(self).spec_num_args() == old(self).spec_num_args(),
            final(self).spec_required_num_args() == old(self).spec_required_num_args(),
            final(self).spec_visibility() == (old(self).spec_visibility() | ZEND_ACC_ABSTRACT),
    {
        self.visibility = self.visibility | ZEND_ACC_ABSTRACT;
    }
}

/// One row of a class's frozen function table: a visible method, the
/// sentinel that ends the visible run, or one of the hidden rows behind it.
pub enum TableSlot<C, M> {
    /// A visible method row.
    Method(MethodEntity<M>),
    /// The end-of-methods sentinel: the row with no name.
    Sentinel,
    /// Hidden row one: the state constructor.
    StateCtor(C),
    /// Hidden row two, when a cloner was registered.
    StateCloner,
    /// Hidden row two, when none was.
    Empty,
}

/// The versioned layout contract of a frozen table: `n` visible method
/// rows, then the sentinel, then exactly two hidden rows — the state
/// constructor and the cloner mark.  Write side and read side both hold to
/// this single statement.
pub open spec fn table_wf<C, M>(t: Seq<TableSlot<C, M>>) -> bool {
    &&& t.len() >= 3
    &&& forall|i: int| 0 <= i < t.len() - 3 ==> (#[trigger] t[i]) is Method
    &&& t[t.len() - 3] is Sentinel
    &&& t[t.len() - 2] is StateCtor
    &&& (t[t.len() - 1] is StateCloner || t[t.len() - 1] is Empty)
}

/// The state constructor a well-formed table hides behind its sentinel.
pub open spec fn table_ctor<C, M>(t: Seq<TableSlot<C, M>>) -> C
    recommends
        table_wf(t),
{
    t[t.len() - 2]->StateCtor_0
}

/// Whether a well-formed table marks a registered state cloner.
pub open spec fn table_has_cloner<C, M>(t: Seq<TableSlot<C, M>>) -> bool {
    t[t.len() - 1] is StateCloner
}

/// The visible method rows of a well-formed table.
pub open spec fn table_methods<C, M>(t: Seq<TableSlot<C, M>>) -> Seq<MethodEntity<M>>
    recommends
        table_wf(t),
{
    t.subrange(0, t.len() - 3).map_values(|s: TableSlot<C, M>| s->Method_0)
}

/// The state-bearing object allocator's read side: scan the table for the
/// sentinel, read the state constructor from the hidden row behind it, run
/// it once, and attach the payload behind a header initialized from the
/// class's declared properties.  The layout contract guarantees the scan
/// lands on the constructor row.
pub fn create_object<C: StateConstructor, M>(
    class: &ClassEntry,
    table: &Vec<TableSlot<C, M>>,
) -> (r: StateObject<C::State>)
    requires
        table_wf(table@),
    ensures
        table_ctor(table@).constructs(r.spec_state()),
        r.spec_object().spec_class_id() == class.spec_class_id(),
        r.spec_object().spec_properties() == defaults_view(class.spec_properties()),
        r.wf(),
{
    // Find the sentinel that ends the visible method rows.
    let n = table.len();
    let mut i: usize = 0;
    let mut found: bool = false;
    while i < n && !found
        invariant
            n == table@.len(),
            table_wf(table@),
            i <= n,
            found ==> i < n && table@[i as int] is Sentinel,
            !found ==> forall|a: int| 0 <= a < i ==> !((#[trigger] table@[a]) is Sentinel),
        decreases n - i, if found {
            0int
        } else {
            1int
        },
    {
        if matches!(&table[i], TableSlot::Sentinel) {
            found = true;
        } else {
            i = i + 1;
        }
    }
    if !found {
        proof {
            assert(table@[n - 3] is Sentinel);
            assert(false);
        }
        return vstd::pervasive::unreached();
    }
    proof {
        assert(table@[n - 3] is Sentinel);
        assert(i as int == n - 3);
    }
    // The hidden row right behind the sentinel holds the constructor.
    let state = match &table[i + 1] {
        TableSlot::StateCtor(c) => c.construct(),
        _ => vstd::pervasive::unreached(),
    };
    let properties = class.default_properties();
    let object = ZObject::new(class.class_id(), properties);
    StateObject::from_parts(object, state)
}

/// The property table a new instance starts from: each declared property
/// inserted in declaration order, later declarations of one name
/// overwriting earlier ones in place.
pub open spec fn defaults_view(props: Seq<PropertyEntity>) -> Seq<(KeyV, ValV)>
    decreases props,
{
    if props.len() == 0 {
        Seq::empty()
    } else {
        spec_insert(
            defaults_view(props.drop_last()),
            KeyV::Str(props.last().spec_name()),
            props.last().spec_value(),
        )
    }
}

/// The defaults table never declares one key twice.
pub proof fn lemma_defaults_distinct(props: Seq<PropertyEntity>)
    ensures
        crate::arrays::distinct_keys(defaults_view(props)),
    decreases props,
{
    if props.len() > 0 {
        lemma_defaults_distinct(props.drop_last());
        crate::arrays::lemma_insert_distinct(
            defaults_view(props.drop_last()),
            KeyV::Str(props.last().spec_name()),
            props.last().spec_value(),
        );
    }
}

/// A property declared exactly once reads back its declared default on a
/// fresh instance, whatever else the class declares.
pub proof fn lemma_declared_property_default(props: Seq<PropertyEntity>, i: int)
    requires
        0 <= i < props.len(),
        forall|j: int|
            0 <= j < props.len() && j != i ==> (#[trigger] props[j].spec_name()) != props[i].spec_name(),
    ensures
        spec_get(defaults_view(props), KeyV::Str(props[i].spec_name())) == Some(
            props[i].spec_value(),
        ),
    decreases props,
{
    lemma_defaults_distinct(props.drop_last());
    if i == props.len() - 1 {
        crate::arrays::lemma_insert_then_get(
            defaults_view(props.drop_last()),
            KeyV::Str(props[i].spec_name()),
            props[i].spec_value(),
        );
    } else {
        assert(props.drop_last()[i] == props[i]);
        lemma_declared_property_default(props.drop_last(), i);
        assert(props.last().spec_name() != props[i].spec_name());
        crate::arrays::lemma_insert_other_key(
            defaults_view(props.drop_last()),
            KeyV::Str(props.last().spec_name()),
            props.last().spec_value(),
            KeyV::Str(props[i].spec_name()),
        );
    }
}

/// The views of a run of names.
pub open spec fn names_view(s: Seq<String>) -> Seq<Seq<char>> {
    s.map_values(|x: String| x@)
}

/// A registered runtime class: immutable for the process lifetime.
#[derive(Debug)]
pub struct ClassEntry {
    pub(crate) class_id: usize,
    pub(crate) name: String,
    pub(crate) parent: Option<usize>,
    pub(crate) interfaces: Vec<String>,
    pub(crate) properties: Vec<PropertyEntity>,
    pub(crate) statics: ZArray,
}

impl ClassEntry {
    /// The handle the table assigned the class.
    pub closed spec fn spec_class_id(&self) -> usize {
        self.class_id
    }

    /// The class's name.
    pub closed spec fn spec_name(&self) -> Seq<char> {
        self.name@
    }

    /// The handle of the resolved parent class, if one was declared.
    pub closed spec fn spec_parent(&self) -> Option<usize> {
        self.parent
    }

    /// The declared instance properties.
    pub closed spec fn spec_properties(&self) -> Seq<PropertyEntity> {
        self.properties@
    }

    /// The names of the implemented interfaces, in declaration order.
    pub closed spec fn spec_interfaces(&self) -> Seq<Seq<char>> {
        names_view(self.interfaces@)
    }

    /// The static property table.
    pub closed spec fn spec_statics(&self) -> Seq<(KeyV, ValV)> {
        self.statics@
    }

    /// The entry's internal consistency.
    pub closed spec fn wf(&self) -> bool {
        self.statics.wf()
    }

    /// The handle the table assigned the class.
    pub fn class_id(&self) -> (r: usize)
        ensures
            r == self.spec_class_id(),
    {
        self.class_id
    }

    /// The class's name.
    pub fn get_name(&self) -> (r: &String)
        ensures
            r@ == self.spec_name(),
    {
        &self.name
    }

    /// The names of the implemented interfaces, in declaration order.
    pub fn interfaces(&self) -> (r: &Vec<String>)
        ensures
            names_view(r@) == self.spec_interfaces(),
    {
        &self.interfaces
    }

    /// A consistent entry holds a statics table without duplicate keys:
    /// the bridge a caller needs to apply the array laws to what it reads
    /// and writes there.
    pub proof fn lemma_wf_statics(&self)
        requires
            self.wf(),
        ensures
            crate::arrays::distinct_keys(self.spec_statics()),
    {
        self.statics.lemma_wf_distinct();
    }

    /// Builds the property table a fresh instance starts from.
    pub fn default_properties(&self) -> (r: ZArray)
        ensures
            r@ == defaults_view(self.spec_properties()),
            r.wf(),
    {
        let mut arr = ZArray::new();
        let n = self.properties.len();
        let mut i: usize = 0;
        while i < n
            invariant
                n == self.spec_properties().len(),
                i <= n,
                arr.wf(),
                arr@ == defaults_view(self.spec_properties().take(i as int)),
            decreases n - i,
        {
            let name = self.properties[i].name().clone();
            let value = self.properties[i].default_val();
            arr.insert(crate::arrays::InsertKey::Str(name), value);
            proof {
                assert(self.spec_properties().take(i as int + 1).drop_last() =~= self
                    .spec_properties().take(i as int));
                assert(self.spec_properties().take(i as int + 1).last() == self
                    .spec_properties()[i as int]);
            }
            i = i + 1;
        }
        proof {
            assert(self.spec_properties().take(n as int) =~= self.spec_properties());
        }
        arr
    }

    /// Creates an instance without running any declared constructor method:
    /// the header takes the declared property defaults.
    pub fn init_object(&self) -> (r: ZObject)
        ensures
            r.spec_class_id() == self.spec_class_id(),
            r.spec_properties() == defaults_view(self.spec_properties()),
            r.wf(),
    {
        let properties = self.default_properties();
        ZObject::new(self.class_id(), properties)
    }

    /// Creates an instance; the class entry itself carries no typed
    /// constructor, so this is instance creation with property defaults, as
    /// [`ClassEntry::init_object`] performs it.  A state-bearing class
    /// creates instances through its bound state class instead.
    pub fn new_object(&self) -> (r: ZObject)
        ensures
            r.spec_class_id() == self.spec_class_id(),
            r.spec_properties() == defaults_view(self.spec_properties()),
            r.wf(),
    {
        self.init_object()
    }

    /// Reads a static property declared on the class; absent names read as
    /// nothing.
    pub fn get_static_property(&self, name: &str) -> (r: Option<&Val>)
        requires
            self.wf(),
        ensures
            match r {
                Some(v) => spec_get(self.spec_statics(), KeyV::Str(name@)) == Some(v@),
                None => spec_get(self.spec_statics(), KeyV::Str(name@)) is None,
            },
    {
        let key = crate::arrays::Key::Str(name.to_owned());
        self.statics.get(&key)
    }

    /// Writes a static property: only declared names take a value, and a
    /// successful write hands back the previous value.
    pub fn set_static_property(&mut self, name: &str, value: Val) -> (r: Option<Val>)
        requires
            old(self).wf(),
        ensures
            final(self).wf(),
            final(self).spec_class_id() == old(self).spec_class_id(),
            final(self).spec_name() == old(self).spec_name(),
            final(self).spec_properties() == old(self).spec_properties(),
            final(self).spec_interfaces() == old(self).spec_interfaces(),
            match r {
                Some(prev) => {
                    &&& spec_get(old(self).spec_statics(), KeyV::Str(name@)) == Some(prev@)
                    &&& final(self).spec_statics() == spec_insert(
                        old(self).spec_statics(),
                        KeyV::Str(name@),
                        value@,
                    )
                },
                None => {
                    &&& spec_get(old(self).spec_statics(), KeyV::Str(name@)) is None
                    &&& final(self).spec_statics() == old(self).spec_statics()
                },
            },
    {
        let key = crate::arrays::Key::Str(name.to_owned());
        let prev = match self.statics.get(&key) {
            Some(v) => crate::values::val_clone(v),
            None => {
                return None;
            },
        };
        self.statics.insert(crate::arrays::InsertKey::Str(name.to_owned()), value);
        Some(prev)
    }
}

/// The process-wide class table: registration appends, lookups read.
pub struct ClassTable {
    pub(crate) entries: Vec<ClassEntry>,
}

/// The folded form a class name is keyed by: the engine keys its class
/// table by ASCII-lowercased names, so lookups and the duplicate check go
/// by this form.
pub open spec fn folded(name: Seq<char>) -> Seq<char> {
    crate::strings::spec_ascii_lowercase(name)
}

/// Whether some registered class carries the name, compared by folded form.
pub open spec fn has_class(s: Seq<ClassEntry>, name: Seq<char>) -> bool {
    exists|i: int| 0 <= i < s.len() && folded(s[i].spec_name()) == folded(name)
}

/// The position of the class carrying the name (meaningful when `has_class`
/// holds and the folded names are distinct).
pub open spec fn class_pos(s: Seq<ClassEntry>, name: Seq<char>) -> int {
    choose|i: int| 0 <= i < s.len() && folded(s[i].spec_name()) == folded(name)
}

/// No two registered classes fold to one name.
pub open spec fn class_names_distinct(s: Seq<ClassEntry>) -> bool {
    forall|i: int, j: int|
        0 <= i < j < s.len() ==> folded(s[i].spec_name()) != folded(s[j].spec_name())
}

impl ClassTable {
    /// The registered classes, in registration order.
    pub closed spec fn spec_entries(&self) -> Seq<ClassEntry> {
        self.entries@
    }

    /// The table's consistency: unique names, each entry under its own
    /// handle, and each entry internally consistent.
    pub open spec fn wf(&self) -> bool {
        &&& class_names_distinct(self.spec_entries())
        &&& forall|i: int|
            0 <= i < self.spec_entries().len() ==> (#[trigger] self.spec_entries()[i]).spec_class_id()
                == i
        &&& forall|i: int| 0 <= i < self.spec_entries().len() ==> (#[trigger] self.spec_entries()[i]).wf()
    }

    /// An empty table.
    pub fn new() -> (r: ClassTable)
        ensures
            r.spec_entries() == Seq::<ClassEntry>::empty(),
            r.wf(),
    {
        ClassTable { entries: Vec::new() }
    }

    /// Finds the registered class of the given name; names are compared by
    /// their folded form, as the engine keys its class table.
    pub fn find(&self, name: &str) -> (r: Option<&ClassEntry>)
        requires
            self.wf(),
        ensures
            match r {
                Some(e) => has_class(self.spec_entries(), name@) && *e == self.spec_entries()[class_pos(
                    self.spec_entries(),
                    name@,
                )],
                None => !has_class(self.spec_entries(), name@),
            },
    {
        let target = crate::strings::ascii_lowercase(name);
        let n = self.entries.len();
        let mut i: usize = 0;
        while i < n
            invariant
                self.wf(),
                n == self.spec_entries().len(),
                i <= n,
                target@ == folded(name@),
                forall|a: int|
                    0 <= a < i ==> folded(self.spec_entries()[a].spec_name()) != folded(name@),
            decreases n - i,
        {
            let entry_name = crate::strings::ascii_lowercase(self.entries[i].get_name().as_str());
            if entry_name == target {
                proof {
                    assert(class_names_distinct(self.spec_entries()));
                    assert(folded(self.spec_entries()[i as int].spec_name()) == folded(name@));
                    assert(has_class(self.spec_entries(), name@));
                    let p = class_pos(self.spec_entries(), name@);
                    assert(folded(self.spec_entries()[p].spec_name()) == folded(name@));
                    assert(folded(self.spec_entries()[i as int].spec_name()) == folded(
                        self.spec_entries()[p].spec_name(),
                    ));
                    assert(p == i);
                }
                return Some(&self.entries[i]);
            }
            i = i + 1;
        }
        None
    }

    /// Writes a static property of the named class: a successful write
    /// hands back the previous value; an unknown class or an undeclared
    /// static name changes nothing.
    pub fn set_static_property(&mut self, class_name: &str, name: &str, value: Val) -> (r: Option<
        Val,
    >)
        requires
            old(self).wf(),
        ensures
            final(self).wf(),
            if !has_class(old(self).spec_entries(), class_name@) {
                final(self).spec_entries() == old(self).spec_entries() && r is None
            } else {
                let p = class_pos(old(self).spec_entries(), class_name@);
                let entry = old(self).spec_entries()[p];
                &&& final(self).spec_entries().len() == old(self).spec_entries().len()
                &&& (forall|i: int|
                    0 <= i < final(self).spec_entries().len() && i != p ==> final(self).spec_entries()[i] == old(self).spec_entries()[i])
                &&& final(self).spec_entries()[p].spec_name() == entry.spec_name()
                &&& final(self).spec_entries()[p].spec_class_id() == entry.spec_class_id()
                &&& final(self).spec_entries()[p].spec_properties() == entry.spec_properties()
                &&& final(self).spec_entries()[p].spec_interfaces() == entry.spec_interfaces()
                &&& match r {
                    Some(prev) => {
                        &&& spec_get(entry.spec_statics(), KeyV::Str(name@)) == Some(prev@)
                        &&& final(self).spec_entries()[p].spec_statics() == spec_insert(
                            entry.spec_statics(),
                            KeyV::Str(name@),
                            value@,
                        )
                    },
                    None => {
                        &&& spec_get(entry.spec_statics(), KeyV::Str(name@)) is None
                        &&& final(self).spec_entries()[p].spec_statics() == entry.spec_statics()
                    },
                }
            },
    {
        let target = crate::strings::ascii_lowercase(class_name);
        let n = self.entries.len();
        let mut idx: usize = 0;
        let mut found: bool = false;
        while idx < n && !found
            invariant
                self.wf(),
                self.spec_entries() == old(self).spec_entries(),
                n == self.spec_entries().len(),
                idx <= n,
                target@ == folded(class_name@),
                found ==> idx < n && folded(self.spec_entries()[idx as int].spec_name()) == folded(
                    class_name@,
                ),
                !found ==> forall|a: int|
                    0 <= a < idx ==> folded(self.spec_entries()[a].spec_name()) != folded(
                        class_name@,
                    ),
            decreases n - idx, if found {
                0int
            } else {
                1int
            },
        {
            let entry_name = crate::strings::ascii_lowercase(self.entries[idx].get_name().as_str());
            if entry_name == target {
                found = true;
            } else {
                idx = idx + 1;
            }
        }
        if !found {
            return None;
        }
        proof {
            assert(has_class(self.spec_entries(), class_name@));
            let p = class_pos(self.spec_entries(), class_name@);
            assert(folded(self.spec_entries()[p].spec_name()) == folded(class_name@));
            assert(p == idx);
        }
        let row = entry_at_mut(&mut self.entries, idx);
        let r = row.set_static_property(name, value);
        proof {
            let p = class_pos(old(self).spec_entries(), class_name@);
            assert(p == idx);
            assert forall|a: int, b: int|
                0 <= a < b < self.spec_entries().len() implies folded(
                self.spec_entries()[a].spec_name(),
            ) != folded(self.spec_entries()[b].spec_name()) by {
                assert(self.spec_entries()[a].spec_name() == old(self).spec_entries()[a].spec_name());
                assert(self.spec_entries()[b].spec_name() == old(self).spec_entries()[b].spec_name());
            }
        }
        r
    }

    /// Looks a class up by name, as callers of the global class table do;
    /// an unknown name is the class-not-found error.
    pub fn from_globals(&self, class_name: &str) -> (r: Result<&ClassEntry, ClassNotFoundError>)
        requires
            self.wf(),
        ensures
            match r {
                Ok(e) => has_class(self.spec_entries(), class_name@) && *e == self.spec_entries()[class_pos(
                    self.spec_entries(),
                    class_name@,
                )],
                Err(e) => !has_class(self.spec_entries(), class_name@) && e.spec_class_name()
                    == class_name@,
            },
    {
        match self.find(class_name) {
            Some(e) => Ok(e),
            None => Err(ClassNotFoundError::new(class_name.to_owned())),
        }
    }
}


/// Whether some visible method row of the table carries the name.
pub open spec fn has_method<C, M>(t: Seq<TableSlot<C, M>>, name: Seq<char>) -> bool {
    exists|i: int|
        0 <= i < t.len() && ((#[trigger] t[i]) matches TableSlot::Method(m) && m.spec_name()
            == name)
}

/// The position of the method row carrying the name (meaningful when
/// `has_method` holds and the method names are distinct).
pub open spec fn method_pos<C, M>(t: Seq<TableSlot<C, M>>, name: Seq<char>) -> int {
    choose|i: int|
        0 <= i < t.len() && ((#[trigger] t[i]) matches TableSlot::Method(m) && m.spec_name()
            == name)
}

/// No two method declarations carry one name.
pub open spec fn method_names_distinct<M>(s: Seq<MethodEntity<M>>) -> bool {
    forall|i: int, j: int| 0 <= i < j < s.len() ==> s[i].spec_name() != s[j].spec_name()
}

/// Builder for registering a class: pure accumulation until `register`.
pub struct ClassEntity<C, M> {
    class_name: String,
    state_constructor: C,
    method_entities: Vec<MethodEntity<M>>,
    property_entities: Vec<PropertyEntity>,
    static_property_entities: Vec<PropertyEntity>,
    parent: Option<String>,
    interfaces: Vec<String>,
    has_state_cloner: bool,
}

/// Everything of the entity but its method list is as it was.
pub open spec fn unchanged_but_methods<C, M>(a: ClassEntity<C, M>, b: ClassEntity<C, M>) -> bool {
    &&& b.spec_properties() == a.spec_properties()
    &&& b.spec_static_properties() == a.spec_static_properties()
    &&& b.spec_class_name() == a.spec_class_name()
    &&& b.spec_state_constructor() == a.spec_state_constructor()
    &&& b.spec_parent() == a.spec_parent()
    &&& b.spec_interfaces() == a.spec_interfaces()
    &&& b.spec_has_state_cloner() == a.spec_has_state_cloner()
}

impl<C, M> ClassEntity<C, M> {
    /// The class name to register under.
    pub closed spec fn spec_class_name(&self) -> Seq<char> {
        self.class_name@
    }

    /// The state constructor the allocator will run per instance.
    pub closed spec fn spec_state_constructor(&self) -> C {
        self.state_constructor
    }

    /// The method declarations, in declaration order.
    pub closed spec fn spec_methods(&self) -> Seq<MethodEntity<M>> {
        self.method_entities@
    }

    /// The instance property declarations, in declaration order.
    pub closed spec fn spec_properties(&self) -> Seq<PropertyEntity> {
        self.property_entities@
    }

    /// The static property declarations, in declaration order.
    pub closed spec fn spec_static_properties(&self) -> Seq<PropertyEntity> {
        self.static_property_entities@
    }

    /// The declared parent class name, if any.
    pub closed spec fn spec_parent(&self) -> Option<String> {
        self.parent
    }

    /// The declared interface names, in declaration order.
    pub closed spec fn spec_interfaces(&self) -> Seq<String> {
        self.interfaces@
    }

    /// Whether a state cloner was registered.
    pub closed spec fn spec_has_state_cloner(&self) -> bool {
        self.has_state_cloner
    }

    /// Begins describing a class whose instances carry the state this
    /// constructor produces.
    pub fn new_with_state_constructor(class_name: String, state_constructor: C) -> (r: ClassEntity<
        C,
        M,
    >)
        ensures
            r.spec_class_name() == class_name@,
            r.spec_state_constructor() == state_constructor,
            r.spec_methods() == Seq::<MethodEntity<M>>::empty(),
            r.spec_properties() == Seq::<PropertyEntity>::empty(),
            r.spec_static_properties() == Seq::<PropertyEntity>::empty(),
            r.spec_parent() is None,
            r.spec_interfaces() == Seq::<String>::empty(),
            !r.spec_has_state_cloner(),
    {
        ClassEntity {
            class_name,
            state_constructor,
            method_entities: Vec::new(),
            property_entities: Vec::new(),
            static_property_entities: Vec::new(),
            parent: None,
            interfaces: Vec::new(),
            has_state_cloner: false,
        }
    }

    /// Adds a member method with its visibility, handler and argument
    /// declarations.
    pub fn add_method(&mut self, name: String, vis: Visibility, handler: M, arguments: Vec<
        Argument,
    >)
        requires
            arguments@.len() <= u32::MAX,
        ensures
            final(self).spec_methods().len() == old(self).spec_methods().len() + 1,
            forall|i: int|
                0 <= i < old(self).spec_methods().len() ==> final(self).spec_methods()[i] == old(
                    self,
                ).spec_methods()[i],
            final(self).spec_methods().last().spec_name() == name@,
            final(self).spec_methods().last().spec_handler() == Some(handler),
            final(self).spec_methods().last().spec_visibility() == vis.spec_raw(),
            final(self).spec_methods().last().spec_required_num_args() == spec_required_count(
                arguments@,
            ),
            unchanged_but_methods(*old(self), *final(self)),
    {
        let entity = MethodEntity::new(name, Some(handler), vis, arguments);
        self.method_entities.push(entity);
    }

    /// Adds a static method: recorded with the static bit; the model
    /// dispatches instance methods only.
    pub fn add_static_method(&mut self, name: String, vis: Visibility, handler: M, arguments: Vec<
        Argument,
    >)
        requires
            arguments@.len() <= u32::MAX,
        ensures
            final(self).spec_methods().len() == old(self).spec_methods().len() + 1,
            forall|i: int|
                0 <= i < old(self).spec_methods().len() ==> final(self).spec_methods()[i] == old(
                    self,
                ).spec_methods()[i],
            final(self).spec_methods().last().spec_name() == name@,
            final(self).spec_methods().last().spec_handler() == Some(handler),
            final(self).spec_methods().last().spec_visibility() == (vis.spec_raw()
                | ZEND_ACC_STATIC),
            unchanged_but_methods(*old(self), *final(self)),
    {
        let mut entity = MethodEntity::new(name, Some(handler), vis, arguments);
        entity.set_vis_static();
        self.method_entities.push(entity);
    }

    /// Adds an abstract method: a declaration without a handler.
    pub fn add_abstract_method(&mut self, name: String, vis: Visibility, arguments: Vec<Argument>)
        requires
            arguments@.len() <= u32::MAX,
        ensures
            final(self).spec_methods().len() == old(self).spec_methods().len() + 1,
            forall|i: int|
                0 <= i < old(self).spec_methods().len() ==> final(self).spec_methods()[i] == old(
                    self,
                ).spec_methods()[i],
            final(self).spec_methods().last().spec_name() == name@,
            final(self).spec_methods().last().spec_handler() is None,
            final(self).spec_methods().last().spec_visibility() == (vis.spec_raw()
                | ZEND_ACC_ABSTRACT),
            unchanged_but_methods(*old(self), *final(self)),
    {
        let mut entity = MethodEntity::new(name, None, vis, arguments);
        entity.set_vis_abstract();
        self.method_entities.push(entity);
    }

    /// Declares an instance property with its scalar default.
    pub fn add_property(&mut self, name: String, visibility: Visibility, value: Scalar)
        ensures
            final(self).spec_properties().len() == old(self).spec_properties().len() + 1,
            forall|i: int|
                0 <= i < old(self).spec_properties().len() ==> final(self).spec_properties()[i]
                    == old(self).spec_properties()[i],
            final(self).spec_properties().last().spec_name() == name@,
            final(self).spec_properties().last().spec_visibility() == visibility.spec_raw(),
            final(self).spec_properties().last().spec_value() == value.spec_val_view(),
            final(self).spec_methods() == old(self).spec_methods(),
            final(self).spec_static_properties() == old(self).spec_static_properties(),
            final(self).spec_class_name() == old(self).spec_class_name(),
            final(self).spec_state_constructor() == old(self).spec_state_constructor(),
            final(self).spec_parent() == old(self).spec_parent(),
            final(self).spec_interfaces() == old(self).spec_interfaces(),
            final(self).spec_has_state_cloner() == old(self).spec_has_state_cloner(),
    {
        let entity = PropertyEntity::new(name, visibility, value);
        self.property_entities.push(entity);
    }

    /// Declares a static property with its scalar default.
    pub fn add_static_property(&mut self, name: String, visibility: Visibility, value: Scalar)
        ensures
            final(self).spec_static_properties().len() == old(self).spec_static_properties().len()
                + 1,
            forall|i: int|
                0 <= i < old(self).spec_static_properties().len() ==> final(self).spec_static_properties()[i] == old(self).spec_static_properties()[i],
            final(self).spec_static_properties().last().spec_name() == name@,
            final(self).spec_static_properties().last().spec_visibility() == (visibility.spec_raw()
                | ZEND_ACC_STATIC),
            final(self).spec_static_properties().last().spec_value() == value.spec_val_view(),
            final(self).spec_methods() == old(self).spec_methods(),
            final(self).spec_properties() == old(self).spec_properties(),
            final(self).spec_class_name() == old(self).spec_class_name(),
            final(self).spec_state_constructor() == old(self).spec_state_constructor(),
            final(self).spec_parent() == old(self).spec_parent(),
            final(self).spec_interfaces() == old(self).spec_interfaces(),
            final(self).spec_has_state_cloner() == old(self).spec_has_state_cloner(),
    {
        let mut entity = PropertyEntity::new(name, visibility, value);
        entity.set_vis_static();
        self.static_property_entities.push(entity);
    }

    /// Declares the parent class, late-bound by name: the name is resolved
    /// against the class table when `register` runs.
    pub fn extends(&mut self, parent: String)
        ensures
            final(self).spec_parent() matches Some(p) && p@ == parent@,
            final(self).spec_methods() == old(self).spec_methods(),
            final(self).spec_properties() == old(self).spec_properties(),
            final(self).spec_static_properties() == old(self).spec_static_properties(),
            final(self).spec_class_name() == old(self).spec_class_name(),
            final(self).spec_state_constructor() == old(self).spec_state_constructor(),
            final(self).spec_interfaces() == old(self).spec_interfaces(),
            final(self).spec_has_state_cloner() == old(self).spec_has_state_cloner(),
    {
        self.parent = Some(parent);
    }

    /// Declares an implemented interface, late-bound by name; a class may
    /// implement several.
    pub fn implements(&mut self, interface: String)
        ensures
            final(self).spec_interfaces() == old(self).spec_interfaces().push(interface),
            final(self).spec_methods() == old(self).spec_methods(),
            final(self).spec_properties() == old(self).spec_properties(),
            final(self).spec_static_properties() == old(self).spec_static_properties(),
            final(self).spec_class_name() == old(self).spec_class_name(),
            final(self).spec_state_constructor() == old(self).spec_state_constructor(),
            final(self).spec_parent() == old(self).spec_parent(),
            final(self).spec_has_state_cloner() == old(self).spec_has_state_cloner(),
    {
        self.interfaces.push(interface);
    }

    /// Registers the state cloner: instances become cloneable, their
    /// payload duplicated by the payload's own clone.  Recorded in the
    /// frozen table's second hidden row.
    pub fn state_cloner(&mut self)
        ensures
            final(self).spec_has_state_cloner(),
            final(self).spec_methods() == old(self).spec_methods(),
            final(self).spec_properties() == old(self).spec_properties(),
            final(self).spec_static_properties() == old(self).spec_static_properties(),
            final(self).spec_class_name() == old(self).spec_class_name(),
            final(self).spec_state_constructor() == old(self).spec_state_constructor(),
            final(self).spec_parent() == old(self).spec_parent(),
            final(self).spec_interfaces() == old(self).spec_interfaces(),
    {
        self.has_state_cloner = true;
    }
}


/// The visible method rows of a table carry pairwise distinct names.
pub open spec fn table_methods_distinct<C, M>(t: Seq<TableSlot<C, M>>) -> bool {
    forall|i: int, j: int|
        0 <= i < j < t.len() && t[i] is Method && t[j] is Method ==> (#[trigger] t[i])->Method_0.spec_name()
            != (#[trigger] t[j])->Method_0.spec_name()
}

/// Builds a class's defaults table from property declarations, in order.
fn build_defaults(props: &Vec<PropertyEntity>) -> (r: ZArray)
    ensures
        r@ == defaults_view(props@),
        r.wf(),
{
    let mut arr = ZArray::new();
    let n = props.len();
    let mut i: usize = 0;
    while i < n
        invariant
            n == props@.len(),
            i <= n,
            arr.wf(),
            arr@ == defaults_view(props@.take(i as int)),
        decreases n - i,
    {
        let name = props[i].name().clone();
        let value = props[i].default_val();
        arr.insert(crate::arrays::InsertKey::Str(name), value);
        proof {
            assert(props@.take(i as int + 1).drop_last() =~= props@.take(i as int));
            assert(props@.take(i as int + 1).last() == props@[i as int]);
        }
        i = i + 1;
    }
    proof {
        assert(props@.take(n as int) =~= props@);
    }
    arr
}

/// The write side of the layout contract: the visible method rows in
/// declaration order, the sentinel, the state constructor, the cloner
/// mark.
fn build_function_table<C, M>(methods: Vec<MethodEntity<M>>, ctor: C, has_cloner: bool) -> (t: Vec<
    TableSlot<C, M>,
>)
    ensures
        table_wf(t@),
        t@.len() == methods@.len() + 3,
        forall|i: int| 0 <= i < methods@.len() ==> t@[i] == TableSlot::<C, M>::Method(methods@[i]),
        table_ctor(t@) == ctor,
        table_has_cloner(t@) == has_cloner,
{
    let ghost orig = methods@;
    let mut methods = methods;
    let mut t: Vec<TableSlot<C, M>> = Vec::new();
    while methods.len() > 0
        invariant
            t@.len() + methods@.len() == orig.len(),
            forall|i: int| 0 <= i < t@.len() ==> t@[i] == TableSlot::<C, M>::Method(orig[i]),
            methods@ == orig.subrange(t@.len() as int, orig.len() as int),
        decreases methods@.len(),
    {
        let m = methods.remove(0);
        proof {
            assert(m == orig[t@.len() as int]);
        }
        t.push(TableSlot::Method(m));
        proof {
            assert(methods@ =~= orig.subrange(t@.len() as int, orig.len() as int));
        }
    }
    t.push(TableSlot::Sentinel);
    t.push(TableSlot::StateCtor(ctor));
    if has_cloner {
        t.push(TableSlot::StateCloner);
    } else {
        t.push(TableSlot::Empty);
    }
    t
}

impl<C: StateConstructor, M: Handler<State = C::State>> ClassEntity<C, M> {
    /// Registers the class, consuming the description: refuses a name the
    /// table already holds — the registration error that aborts module
    /// startup — resolves the late-bound parent, materializes the class
    /// entry with its property defaults and statics, freezes the method
    /// table with its hidden rows, and hands back the bound state class.
    pub fn register(self, table: &mut ClassTable) -> (r: Result<
        StaticStateClass<C, M>,
        RegistrationError,
    >)
        requires
            old(table).wf(),
            match self.spec_parent() {
                Some(p) => has_class(old(table).spec_entries(), p@),
                None => true,
            },
        ensures
            final(table).wf(),
            match r {
                Err(e) => {
                    &&& final(table).spec_entries() == old(table).spec_entries()
                    &&& (has_class(old(table).spec_entries(), self.spec_class_name())
                        || !method_names_distinct(self.spec_methods()))
                    &&& if has_class(old(table).spec_entries(), self.spec_class_name()) {
                        // A taken class name is refused first.
                        e.spec_name() == self.spec_class_name()
                    } else {
                        // Otherwise a method name declared twice is refused.
                        exists|i: int, j: int|
                            0 <= i < j < self.spec_methods().len() && (#[trigger] self.spec_methods()[i]).spec_name()
                                == (#[trigger] self.spec_methods()[j]).spec_name() && e.spec_name()
                                == self.spec_methods()[j].spec_name()
                    }
                },
                Ok(h) => {
                    &&& !has_class(old(table).spec_entries(), self.spec_class_name())
                    &&& method_names_distinct(self.spec_methods())
                    &&& final(table).spec_entries().len() == old(table).spec_entries().len() + 1
                    &&& (forall|i: int|
                        0 <= i < old(table).spec_entries().len() ==> final(table).spec_entries()[i]
                            == old(table).spec_entries()[i])
                    &&& final(table).spec_entries().last().spec_class_id() == old(
                        table,
                    ).spec_entries().len()
                    &&& final(table).spec_entries().last().spec_name() == self.spec_class_name()
                    &&& final(table).spec_entries().last().spec_parent() == (match self
                        .spec_parent() {
                        Some(p) => Some(class_pos(old(table).spec_entries(), p@) as usize),
                        None => None,
                    })
                    &&& final(table).spec_entries().last().spec_interfaces() == names_view(
                        self.spec_interfaces(),
                    )
                    &&& final(table).spec_entries().last().spec_properties()
                        == self.spec_properties()
                    &&& final(table).spec_entries().last().spec_statics() == defaults_view(
                        self.spec_static_properties(),
                    )
                    &&& h.spec_class_id() == Some(old(table).spec_entries().len() as usize)
                    &&& h.wf()
                    &&& h.spec_table().len() == self.spec_methods().len() + 3
                    &&& (forall|i: int|
                        0 <= i < self.spec_methods().len() ==> h.spec_table()[i]
                            == TableSlot::<C, M>::Method(self.spec_methods()[i]))
                    &&& table_ctor(h.spec_table()) == self.spec_state_constructor()
                    &&& table_has_cloner(h.spec_table()) == self.spec_has_state_cloner()
                },
            },
    {
        if table.find(self.class_name.as_str()).is_some() {
            return Err(RegistrationError::new(self.class_name));
        }
        // A method name declared twice is the same registration failure as
        // a taken class name: the engine refuses the class's function
        // table.
        let mn = self.method_entities.len();
        let mut j: usize = 1;
        while j < mn
            invariant
                table.wf(),
                table.spec_entries() == old(table).spec_entries(),
                !has_class(table.spec_entries(), self.spec_class_name()),
                mn == self.spec_methods().len(),
                j <= mn || (mn == 0 && j == 1),
                forall|a: int, b: int|
                    0 <= a < b < j && b < mn ==> self.spec_methods()[a].spec_name() != self
                        .spec_methods()[b].spec_name(),
            decreases mn - j,
        {
            let mut i: usize = 0;
            while i < j
                invariant
                    table.wf(),
                    table.spec_entries() == old(table).spec_entries(),
                    !has_class(table.spec_entries(), self.spec_class_name()),
                    j < mn,
                    mn == self.spec_methods().len(),
                    i <= j,
                    forall|a: int|
                        0 <= a < i ==> self.spec_methods()[a].spec_name() != self
                            .spec_methods()[j as int].spec_name(),
                decreases j - i,
            {
                if *self.method_entities[i].name() == *self.method_entities[j].name() {
                    let dup = self.method_entities[j].name().clone();
                    proof {
                        assert(self.spec_methods()[i as int].spec_name() == self
                            .spec_methods()[j as int].spec_name());
                        assert(!method_names_distinct(self.spec_methods()));
                        assert(exists|a: int, b: int|
                            0 <= a < b < self.spec_methods().len()
                                && (#[trigger] self.spec_methods()[a]).spec_name()
                                == (#[trigger] self.spec_methods()[b]).spec_name() && dup@
                                == self.spec_methods()[b].spec_name());
                    }
                    return Err(RegistrationError::new(dup));
                }
                i = i + 1;
            }
            j = j + 1;
        }
        proof {
            assert(method_names_distinct(self.spec_methods()));
        }
        let parent_id: Option<usize> = match &self.parent {
            Some(p) => match table.find(p.as_str()) {
                Some(e) => {
                    proof {
                        let pp = class_pos(table.spec_entries(), p@);
                        assert(*e == table.spec_entries()[pp]);
                        assert(table.spec_entries()[pp].spec_class_id() == pp);
                    }
                    Some(e.class_id())
                },
                None => vstd::pervasive::unreached(),
            },
            None => None,
        };
        let class_id = table.entries.len();
        let statics = build_defaults(&self.static_property_entities);
        let entry = ClassEntry {
            class_id,
            name: self.class_name,
            parent: parent_id,
            interfaces: self.interfaces,
            properties: self.property_entities,
            statics,
        };
        table.entries.push(entry);
        proof {
            assert(table.spec_entries().last().spec_interfaces() =~= names_view(
                self.spec_interfaces(),
            ));
            assert forall|a: int, b: int|
                0 <= a < b < table.spec_entries().len() implies folded(
                table.spec_entries()[a].spec_name(),
            ) != folded(table.spec_entries()[b].spec_name()) by {
                if b < old(table).spec_entries().len() {
                    assert(folded(old(table).spec_entries()[a].spec_name()) != folded(
                        old(table).spec_entries()[b].spec_name(),
                    ));
                }
            }
        }
        let slots = build_function_table(
            self.method_entities,
            self.state_constructor,
            self.has_state_cloner,
        );
        proof {
            assert forall|i: int, j: int|
                0 <= i < j < slots@.len() && slots@[i] is Method && slots@[j] is Method implies (
            slots@[i])->Method_0.spec_name() != (slots@[j])->Method_0.spec_name() by {
                assert(!(slots@[slots@.len() - 3] is Method));
                assert(!(slots@[slots@.len() - 2] is Method));
                assert(!(slots@[slots@.len() - 1] is Method));
                assert(j < self.spec_methods().len());
                assert(slots@[i] == TableSlot::<C, M>::Method(self.spec_methods()[i]));
                assert(slots@[j] == TableSlot::<C, M>::Method(self.spec_methods()[j]));
                assert(self.spec_methods()[i].spec_name() != self.spec_methods()[j].spec_name());
            }
        }
        Ok(StaticStateClass { class_id: Some(class_id), table: slots })
    }
}

/// The process-wide handle of a registered state-bearing class: the class
/// handle and the frozen method table, with the hidden rows the allocator
/// reads.
pub struct StaticStateClass<C, M> {
    class_id: Option<usize>,
    table: Vec<TableSlot<C, M>>,
}

impl<C: StateConstructor, M: Handler<State = C::State>> StaticStateClass<C, M> {
    /// The class handle, once bound by registration.
    pub closed spec fn spec_class_id(&self) -> Option<usize> {
        self.class_id
    }

    /// The frozen method table.
    pub closed spec fn spec_table(&self) -> Seq<TableSlot<C, M>> {
        self.table@
    }

    /// A bound handle holds a well-laid-out table with distinct method
    /// names.
    pub open spec fn wf(&self) -> bool {
        &&& table_wf(self.spec_table())
        &&& table_methods_distinct(self.spec_table())
    }

    /// An unbound handle: registration fills it.  Creating objects through
    /// an unbound handle is not meaningful, so the creating calls ask for a
    /// bound one.
    pub fn null() -> (r: StaticStateClass<C, M>)
        ensures
            r.spec_class_id() is None,
    {
        StaticStateClass { class_id: None, table: Vec::new() }
    }

    /// Creates an instance without calling any declared constructor
    /// method: the allocator runs the hidden state constructor and the
    /// header takes the class's property defaults.
    pub fn init_object(&self, table: &ClassTable) -> (r: StateObject<C::State>)
        requires
            table.wf(),
            self.wf(),
            self.spec_class_id() matches Some(id) && id < table.spec_entries().len(),
        ensures
            table_ctor(self.spec_table()).constructs(r.spec_state()),
            r.spec_object().spec_class_id() == self.spec_class_id().unwrap(),
            r.spec_object().spec_properties() == defaults_view(
                table.spec_entries()[self.spec_class_id().unwrap() as int].spec_properties(),
            ),
            r.wf(),
    {
        let id = match self.class_id {
            Some(i) => i,
            None => vstd::pervasive::unreached(),
        };
        create_object(&table.entries[id], &self.table)
    }

    /// Finds the visible method row carrying the name.
    fn find_method(&self, name: &str) -> (r: Option<usize>)
        requires
            self.wf(),
        ensures
            match r {
                Some(i) => {
                    &&& has_method(self.spec_table(), name@)
                    &&& i == method_pos(self.spec_table(), name@)
                    &&& i < self.spec_table().len()
                    &&& self.spec_table()[i as int] is Method
                    &&& self.spec_table()[i as int]->Method_0.spec_name() == name@
                },
                None => !has_method(self.spec_table(), name@),
            },
    {
        let target = name.to_owned();
        let n = self.table.len();
        let mut i: usize = 0;
        while i < n
            invariant
                self.wf(),
                n == self.spec_table().len(),
                i <= n,
                target@ == name@,
                forall|a: int|
                    0 <= a < i ==> !((#[trigger] self.spec_table()[a]) matches TableSlot::Method(m)
                        && m.spec_name() == name@),
            decreases n - i,
        {
            let hit: bool = match &self.table[i] {
                TableSlot::Method(m) => *m.name() == target,
                _ => false,
            };
            if hit {
                proof {
                    assert(has_method(self.spec_table(), name@));
                    let p = method_pos(self.spec_table(), name@);
                    assert(self.spec_table()[p] is Method && self.spec_table()[p]->Method_0.spec_name() == name@);
                    assert(p == i);
                }
                return Some(i);
            }
            i = i + 1;
        }
        None
    }

    /// Calls a declared method on a receiver, as a script call would reach
    /// it: an undeclared name and an abstract method are refused, an
    /// under-supplied call is refused with the arity exception before the
    /// handler runs, and otherwise the handler runs once on the receiver
    /// and the call frame's arguments.
    pub fn call_method(
        &mut self,
        this: &mut StateObject<C::State>,
        name: &str,
        arguments: Vec<Val>,
    ) -> (r: Result<Val, PhpException>)
        requires
            old(self).wf(),
            arguments@.len() <= u32::MAX,
        ensures
            final(self).wf(),
            final(self).spec_class_id() == old(self).spec_class_id(),
            final(self).spec_table().len() == old(self).spec_table().len(),
            if !has_method(old(self).spec_table(), name@) {
                // Undeclared name: refused outright, nothing runs.
                &&& final(self).spec_table() == old(self).spec_table()
                &&& *final(this) == *old(this)
                &&& (r matches Err(e) && e@ == (crate::errors::ExceptionV {
                    class_name: "Error"@,
                    message: crate::errors::spec_undefined_method_message(name@),
                    code: 0,
                }))
            } else {
                let p = method_pos(old(self).spec_table(), name@);
                let m = old(self).spec_table()[p]->Method_0;
                if m.spec_handler() is None {
                    // An abstract method has no body to run.
                    &&& final(self).spec_table() == old(self).spec_table()
                    &&& *final(this) == *old(this)
                    &&& (r matches Err(e) && e@ == (crate::errors::ExceptionV {
                        class_name: "Error"@,
                        message: crate::errors::spec_abstract_method_message(name@),
                        code: 0,
                    }))
                } else if arguments@.len() < m.spec_required_num_args() {
                    // Too few arguments: the arity exception, and the
                    // handler never runs.
                    &&& final(self).spec_table() == old(self).spec_table()
                    &&& *final(this) == *old(this)
                    &&& (r matches Err(e) && e@ == crate::functions::arity_exception_view(
                        name@,
                        m.spec_required_num_args(),
                        arguments@.len() as u32,
                    ))
                } else {
                    // The handler ran once, on this receiver and these
                    // arguments.
                    &&& (forall|i: int|
                        0 <= i < final(self).spec_table().len() && i != p ==> final(self).spec_table()[i] == old(self).spec_table()[i])
                    &&& final(self).spec_table()[p] is Method
                    &&& final(self).spec_table()[p]->Method_0.spec_name() == m.spec_name()
                    &&& final(self).spec_table()[p]->Method_0.spec_handler() is Some
                    &&& {
                        let h_pre = m.spec_handler().unwrap();
                        let h_post = final(self).spec_table()[p]->Method_0.spec_handler().unwrap();
                        exists|ret: Result<ValV, ExceptionV>, args_post: Seq<ValV>|
                            {
                                &&& h_pre.call_post(
                                    h_post,
                                    *old(this),
                                    *final(this),
                                    vals_view(arguments@),
                                    args_post,
                                    ret,
                                )
                                &&& match r {
                                    Ok(v) => ret == Ok::<ValV, ExceptionV>(v@),
                                    Err(e) => ret == Err::<ValV, ExceptionV>(e@),
                                }
                            }
                    }
                }
            },
    {
        let found = self.find_method(name);
        let i: usize = match found {
            Some(i) => i,
            None => {
                return Err(crate::errors::undefined_method_exception(name));
            },
        };
        let (required, is_abstract): (u32, bool) = match &self.table[i] {
            TableSlot::Method(m) => (m.required_num_args(), !m.has_handler()),
            _ => vstd::pervasive::unreached(),
        };
        if is_abstract {
            return Err(crate::errors::abstract_method_exception(name));
        }
        if arguments.len() < required as usize {
            let err = crate::errors::ArgumentCountError::new(
                name.to_owned(),
                required,
                arguments.len() as u32,
            );
            return Err(Throwable::to_exception(&err));
        }
        let mut args = arguments;
        let slot = class_table_slot_mut(&mut self.table, i);
        let r = match slot {
            TableSlot::Method(m) => match &mut m.handler {
                Some(h) => h.execute(this, &mut args),
                None => vstd::pervasive::unreached(),
            },
            _ => vstd::pervasive::unreached(),
        };
        proof {
            let p = method_pos(old(self).spec_table(), name@);
            assert(p == i);
            let m_pre = old(self).spec_table()[p]->Method_0;
            let h_pre = m_pre.spec_handler().unwrap();
            assert(self.spec_table()[p] is Method);
            let h_post = self.spec_table()[p]->Method_0.spec_handler().unwrap();
            assert(h_pre.call_post(
                h_post,
                *old(this),
                *this,
                vals_view(arguments@),
                vals_view(args@),
                crate::functions::outcome_view(r),
            ));
            assert forall|a: int, b: int|
                0 <= a < b < self.spec_table().len() && self.spec_table()[a] is Method
                    && self.spec_table()[b] is Method implies (self.spec_table()[a])->Method_0.spec_name()
                != (self.spec_table()[b])->Method_0.spec_name() by {
                assert(old(self).spec_table()[a] is Method && old(self).spec_table()[b] is Method);
                assert((old(self).spec_table()[a])->Method_0.spec_name() != (old(
                    self,
                ).spec_table()[b])->Method_0.spec_name());
                assert((self.spec_table()[a])->Method_0.spec_name() == (old(
                    self,
                ).spec_table()[a])->Method_0.spec_name());
                assert((self.spec_table()[b])->Method_0.spec_name() == (old(
                    self,
                ).spec_table()[b])->Method_0.spec_name());
            }
        }
        r
    }

    /// Creates an instance and runs its declared constructor method, if the
    /// class declares one: the allocator builds the object first, and a
    /// constructor failure surfaces instead of the object.
    pub fn new_object(&mut self, table: &ClassTable, arguments: Vec<Val>) -> (r: Result<
        StateObject<C::State>,
        PhpException,
    >)
        requires
            old(self).wf(),
            table.wf(),
            old(self).spec_class_id() matches Some(id) && id < table.spec_entries().len(),
            arguments@.len() <= u32::MAX,
        ensures
            final(self).wf(),
            final(self).spec_class_id() == old(self).spec_class_id(),
            final(self).spec_table().len() == old(self).spec_table().len(),
            if !has_method(old(self).spec_table(), "__construct"@) {
                // No declared constructor: the allocator's instance is the
                // result.
                &&& final(self).spec_table() == old(self).spec_table()
                &&& (r matches Ok(o) && {
                    &&& table_ctor(old(self).spec_table()).constructs(o.spec_state())
                    &&& o.spec_object().spec_class_id() == old(self).spec_class_id().unwrap()
                    &&& o.spec_object().spec_properties() == defaults_view(
                        table.spec_entries()[old(self).spec_class_id().unwrap() as int].spec_properties(),
                    )
                    &&& o.wf()
                })
            } else {
                // The declared constructor ran on a fresh instance.
                exists|fresh: StateObject<C::State>|
                    {
                        &&& table_ctor(old(self).spec_table()).constructs(fresh.spec_state())
                        &&& fresh.spec_object().spec_class_id() == old(self).spec_class_id().unwrap()
                        &&& fresh.spec_object().spec_properties() == defaults_view(
                            table.spec_entries()[old(self).spec_class_id().unwrap() as int].spec_properties(),
                        )
                        &&& ctor_dispatch_post(
                            old(self).spec_table(),
                            final(self).spec_table(),
                            fresh,
                            vals_view(arguments@),
                            r,
                        )
                    }
            },
    {
        let mut obj = self.init_object(table);
        let found = self.find_method("__construct");
        match found {
            None => Ok(obj),
            Some(_) => {
                let ghost fresh = obj;
                match self.call_method(&mut obj, "__construct", arguments) {
                    Ok(_) => {
                        proof {
                            assert(ctor_dispatch_post(
                                old(self).spec_table(),
                                self.spec_table(),
                                fresh,
                                vals_view(arguments@),
                                Ok::<StateObject<C::State>, PhpException>(obj),
                            ));
                        }
                        Ok(obj)
                    },
                    Err(e) => {
                        proof {
                            assert(ctor_dispatch_post(
                                old(self).spec_table(),
                                self.spec_table(),
                                fresh,
                                vals_view(arguments@),
                                Err::<StateObject<C::State>, PhpException>(e),
                            ));
                        }
                        Err(e)
                    },
                }
            },
        }
    }
}

/// What running the declared constructor on a fresh instance establishes:
/// either the call was refused — abstract declaration or too few arguments
/// — with the matching exception, or the constructor's handler ran once on
/// the fresh instance and the surviving object is the receiver it left
/// behind.
pub open spec fn ctor_dispatch_post<C: StateConstructor, M: Handler<State = C::State>>(
    t_pre: Seq<TableSlot<C, M>>,
    t_post: Seq<TableSlot<C, M>>,
    fresh: StateObject<C::State>,
    args_pre: Seq<ValV>,
    r: Result<StateObject<C::State>, PhpException>,
) -> bool {
    let p = method_pos(t_pre, "__construct"@);
    let m = t_pre[p]->Method_0;
    if m.spec_handler() is None {
        &&& t_post == t_pre
        &&& (r matches Err(e) && e@ == (ExceptionV {
            class_name: "Error"@,
            message: crate::errors::spec_abstract_method_message("__construct"@),
            code: 0,
        }))
    } else if args_pre.len() < m.spec_required_num_args() {
        &&& t_post == t_pre
        &&& (r matches Err(e) && e@ == crate::functions::arity_exception_view(
            "__construct"@,
            m.spec_required_num_args(),
            args_pre.len() as u32,
        ))
    } else {
        &&& (forall|i: int| 0 <= i < t_post.len() && i != p ==> t_post[i] == t_pre[i])
        &&& t_post[p] is Method
        &&& t_post[p]->Method_0.spec_handler() is Some
        &&& {
            let h_pre = m.spec_handler().unwrap();
            let h_post = t_post[p]->Method_0.spec_handler().unwrap();
            exists|ret: Result<ValV, ExceptionV>, args_post: Seq<ValV>, this_post: StateObject<
                C::State,
            >|
                {
                    &&& h_pre.call_post(h_post, fresh, this_post, args_pre, args_post, ret)
                    &&& match r {
                        Ok(o) => ret is Ok && o == this_post,
                        Err(e) => ret == Err::<ValV, ExceptionV>(e@),
                    }
                }
        }
    }
}

/// Mutable access to one registered class entry.
fn entry_at_mut(v: &mut Vec<ClassEntry>, i: usize) -> (row: &mut ClassEntry)
    requires
        i < old(v)@.len(),
    ensures
        *row == old(v)@[i as int],
        final(v)@ == old(v)@.update(i as int, *final(row)),
{
    &mut v[i]
}

/// Mutable access to one row of a frozen method table.
fn class_table_slot_mut<C, M>(v: &mut Vec<TableSlot<C, M>>, i: usize) -> (row: &mut TableSlot<
    C,
    M,
>)
    requires
        i < old(v)@.len(),
    ensures
        *row == old(v)@[i as int],
        final(v)@ == old(v)@.update(i as int, *final(row)),
{
    &mut v[i]
}



impl<M> ClassEntity<UnitStateConstructor, M> {
    /// Begins describing a class that owns no state.
    pub fn new(class_name: String) -> (r: ClassEntity<UnitStateConstructor, M>)
        ensures
            r.spec_class_name() == class_name@,
            r.spec_methods() == Seq::<MethodEntity<M>>::empty(),
            r.spec_properties() == Seq::<PropertyEntity>::empty(),
            r.spec_static_properties() == Seq::<PropertyEntity>::empty(),
            r.spec_parent() is None,
            r.spec_interfaces() == Seq::<String>::empty(),
            !r.spec_has_state_cloner(),
    {
        ClassEntity::new_with_state_constructor(class_name, UnitStateConstructor)
    }
}

/// Builder for one method declaration, used where a declaration is
/// assembled apart from its class.
pub struct MethodEntityBuilder<M> {
    name: String,
    handler: Option<M>,
    arguments: Vec<Argument>,
    visibility: RawVisibility,
}

impl<M> MethodEntityBuilder<M> {
    /// The declared name.
    pub closed spec fn spec_name(&self) -> Seq<char> {
        self.name@
    }

    /// The handler set so far, if any.
    pub closed spec fn spec_handler(&self) -> Option<M> {
        self.handler
    }

    /// The argument declarations.
    pub closed spec fn spec_arguments(&self) -> Seq<Argument> {
        self.arguments@
    }

    /// The visibility bits set so far.
    pub closed spec fn spec_visibility(&self) -> RawVisibility {
        self.visibility
    }

    /// Starts a public declaration from name and arguments.
    pub fn new(name: String, arguments: Vec<Argument>) -> (r: MethodEntityBuilder<M>)
        ensures
            r.spec_name() == name@,
            r.spec_handler() is None,
            r.spec_arguments() == arguments@,
            r.spec_visibility() == ZEND_ACC_PUBLIC,
    {
        MethodEntityBuilder { name, handler: None, arguments, visibility: ZEND_ACC_PUBLIC }
    }

    /// Sets the handler.
    pub fn set_handler(self, handler: M) -> (r: MethodEntityBuilder<M>)
        ensures
            r.spec_name() == self.spec_name(),
            r.spec_handler() == Some(handler),
            r.spec_arguments() == self.spec_arguments(),
            r.spec_visibility() == self.spec_visibility(),
    {
        MethodEntityBuilder { handler: Some(handler), ..self }
    }

    /// Adds the final bit.
    pub fn set_final(self) -> (r: MethodEntityBuilder<M>)
        ensures
            r.spec_name() == self.spec_name(),
            r.spec_handler() == self.spec_handler(),
            r.spec_arguments() == self.spec_arguments(),
            r.spec_visibility() == (self.spec_visibility() | ZEND_ACC_FINAL),
    {
        let visibility = self.visibility | ZEND_ACC_FINAL;
        MethodEntityBuilder { visibility, ..self }
    }

    /// Adds the abstract bit.
    pub fn set_abstract(self) -> (r: MethodEntityBuilder<M>)
        ensures
            r.spec_name() == self.spec_name(),
            r.spec_handler() == self.spec_handler(),
            r.spec_arguments() == self.spec_arguments(),
            r.spec_visibility() == (self.spec_visibility() | ZEND_ACC_ABSTRACT),
    {
        let visibility = self.visibility | ZEND_ACC_ABSTRACT;
        MethodEntityBuilder { visibility, ..self }
    }

    /// Adds the private bit.
    pub fn set_private(self) -> (r: MethodEntityBuilder<M>)
        ensures
            r.spec_name() == self.spec_name(),
            r.spec_handler() == self.spec_handler(),
            r.spec_arguments() == self.spec_arguments(),
            r.spec_visibility() == (self.spec_visibility() | ZEND_ACC_PRIVATE),
    {
        let visibility = self.visibility | ZEND_ACC_PRIVATE;
        MethodEntityBuilder { visibility, ..self }
    }

    /// Adds the protected bit.
    pub fn set_protected(self) -> (r: MethodEntityBuilder<M>)
        ensures
            r.spec_name() == self.spec_name(),
            r.spec_handler() == self.spec_handler(),
            r.spec_arguments() == self.spec_arguments(),
            r.spec_visibility() == (self.spec_visibility() | ZEND_ACC_PROTECTED),
    {
        let visibility = self.visibility | ZEND_ACC_PROTECTED;
        MethodEntityBuilder { visibility, ..self }
    }

    /// Adds the public bit.
    pub fn set_public(self) -> (r: MethodEntityBuilder<M>)
        ensures
            r.spec_name() == self.spec_name(),
            r.spec_handler() == self.spec_handler(),
            r.spec_arguments() == self.spec_arguments(),
            r.spec_visibility() == (self.spec_visibility() | ZEND_ACC_PUBLIC),
    {
        let visibility = self.visibility | ZEND_ACC_PUBLIC;
        MethodEntityBuilder { visibility, ..self }
    }

    /// Finishes the declaration.
    pub fn build(self) -> (r: MethodEntity<M>)
        requires
            self.spec_arguments().len() <= u32::MAX,
        ensures
            r.spec_name() == self.spec_name(),
            r.spec_handler() == self.spec_handler(),
            r.spec_visibility() == self.spec_visibility(),
            r.spec_num_args() == self.spec_arguments().len(),
            r.spec_required_num_args() == spec_required_count(self.spec_arguments()),
    {
        let required = required_count(&self.arguments);
        let num_args = self.arguments.len() as u32;
        MethodEntity {
            name: self.name,
            handler: self.handler,
            visibility: self.visibility,
            required_num_args: required as u32,
            num_args,
        }
    }
}

/// Builder for registering an interface: method requirements — mandatorily
/// abstract — and the interfaces it extends, accumulated until `register`.
pub struct InterfaceEntity<M> {
    interface_name: String,
    methods: Vec<MethodEntity<M>>,
    extends: Vec<String>,
}

impl<M> InterfaceEntity<M> {
    /// The interface name to register under.
    pub closed spec fn spec_interface_name(&self) -> Seq<char> {
        self.interface_name@
    }

    /// The method requirements declared so far.
    pub closed spec fn spec_methods(&self) -> Seq<MethodEntity<M>> {
        self.methods@
    }

    /// The extended interface names, in declaration order.
    pub closed spec fn spec_extends(&self) -> Seq<String> {
        self.extends@
    }

    /// Begins describing an interface.
    pub fn new(interface_name: String) -> (r: InterfaceEntity<M>)
        ensures
            r.spec_interface_name() == interface_name@,
            r.spec_methods() == Seq::<MethodEntity<M>>::empty(),
            r.spec_extends() == Seq::<String>::empty(),
    {
        InterfaceEntity { interface_name, methods: Vec::new(), extends: Vec::new() }
    }

    /// Adds a method requirement; it is abstract whatever the builder
    /// says.
    pub fn add_method(&mut self, builder: MethodEntityBuilder<M>)
        requires
            builder.spec_arguments().len() <= u32::MAX,
        ensures
            final(self).spec_methods().len() == old(self).spec_methods().len() + 1,
            forall|i: int|
                0 <= i < old(self).spec_methods().len() ==> final(self).spec_methods()[i] == old(
                    self,
                ).spec_methods()[i],
            final(self).spec_methods().last().spec_name() == builder.spec_name(),
            final(self).spec_methods().last().spec_visibility() == (builder.spec_visibility()
                | ZEND_ACC_ABSTRACT),
            final(self).spec_interface_name() == old(self).spec_interface_name(),
            final(self).spec_extends() == old(self).spec_extends(),
    {
        let entity = builder.set_abstract().build();
        self.methods.push(entity);
    }

    /// Declares an extended interface, late-bound by name; an interface
    /// may extend several.
    pub fn extends(&mut self, interface: String)
        ensures
            final(self).spec_extends() == old(self).spec_extends().push(interface),
            final(self).spec_interface_name() == old(self).spec_interface_name(),
            final(self).spec_methods() == old(self).spec_methods(),
    {
        self.extends.push(interface);
    }

    /// Registers the interface, consuming the description: an entry under
    /// a taken name is refused.  The method requirements are declarations
    /// only — nothing is dispatched through an interface.
    pub fn register(self, table: &mut ClassTable) -> (r: Result<(), RegistrationError>)
        requires
            old(table).wf(),
        ensures
            final(table).wf(),
            match r {
                Err(e) => {
                    &&& final(table).spec_entries() == old(table).spec_entries()
                    &&& has_class(old(table).spec_entries(), self.spec_interface_name())
                    &&& e.spec_name() == self.spec_interface_name()
                },
                Ok(()) => {
                    &&& !has_class(old(table).spec_entries(), self.spec_interface_name())
                    &&& final(table).spec_entries().len() == old(table).spec_entries().len() + 1
                    &&& (forall|i: int|
                        0 <= i < old(table).spec_entries().len() ==> final(table).spec_entries()[i]
                            == old(table).spec_entries()[i])
                    &&& final(table).spec_entries().last().spec_class_id() == old(
                        table,
                    ).spec_entries().len()
                    &&& final(table).spec_entries().last().spec_name()
                        == self.spec_interface_name()
                    &&& final(table).spec_entries().last().spec_properties() == Seq::<
                        PropertyEntity,
                    >::empty()
                },
            },
    {
        if table.find(self.interface_name.as_str()).is_some() {
            return Err(RegistrationError::new(self.interface_name));
        }
        let class_id = table.entries.len();
        let entry = ClassEntry {
            class_id,
            name: self.interface_name,
            parent: None,
            interfaces: self.extends,
            properties: Vec::new(),
            statics: ZArray::new(),
        };
        table.entries.push(entry);
        proof {
            assert forall|i: int, j: int|
                0 <= i < j < table.spec_entries().len() implies table.spec_entries()[i].spec_name()
                != table.spec_entries()[j].spec_name() by {
                if j < old(table).spec_entries().len() {
                    assert(old(table).spec_entries()[i].spec_name() != old(
                        table,
                    ).spec_entries()[j].spec_name());
                }
            }
        }
        Ok(())
    }
}

} // verus!
