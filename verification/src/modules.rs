//! The module builder and its frozen descriptor.
//!
//! A [`Module`] accumulates metadata, functions, constants and
//! configuration entries during the single-threaded description phase.
//! [`Module::module_entry`] freezes it into a [`ModuleEntry`]: it refuses
//! duplicate function names — the registration error that aborts module
//! startup — and the frozen descriptor is immutable but for the handlers
//! the dispatch shim drives.

use vstd::prelude::*;
use vstd::assert_by_contradiction;

use crate::constants::{Constant, Flags, CONST_CS, CONST_PERSISTENT};
use crate::errors::{undefined_function_exception, PhpException, RegistrationError};
use crate::functions::{
    call_function_handler, vals_view, Argument, Callable, FunctionEntity, FunctionEntry, ZFunc,
};
use crate::ini::{create_ini_entry_ex, IniEntryDef, IntoIniValue, Policy};
use crate::values::{ExecuteData, Val, ValV};

verus! {

/// What the startup hooks learn of the module: its type code and the
/// number the engine assigned it.
pub struct ModuleInfo {
    /// The module's type code.
    pub ty: i32,
    /// The number the engine assigned at load order.
    pub number: i32,
}

/// Whether some row of the table carries the name.
pub open spec fn has_fn<H: Callable>(s: Seq<FunctionEntry<H>>, name: Seq<char>) -> bool {
    exists|i: int| 0 <= i < s.len() && s[i].spec_name() == name
}

/// The position of the row carrying the name (meaningful when `has_fn`
/// holds and the names are distinct).
pub open spec fn fn_pos<H: Callable>(s: Seq<FunctionEntry<H>>, name: Seq<char>) -> int {
    choose|i: int| 0 <= i < s.len() && s[i].spec_name() == name
}

/// No two rows of the table carry one name.
pub open spec fn fn_names_distinct<H: Callable>(s: Seq<FunctionEntry<H>>) -> bool {
    forall|i: int, j: int| 0 <= i < j < s.len() ==> s[i].spec_name() != s[j].spec_name()
}

/// Builder for a module: metadata and entities, accumulated during the
/// description phase.
pub struct Module<H> {
    name: String,
    version: String,
    author: String,
    functions: Vec<FunctionEntry<H>>,
    constants: Vec<Constant>,
    ini_entities: Vec<IniEntryDef>,
    infos: Vec<(String, String)>,
}

impl<H: Callable> Module<H> {
    /// The module's name.
    pub closed spec fn spec_name(&self) -> Seq<char> {
        self.name@
    }

    /// The module's version.
    pub closed spec fn spec_version(&self) -> Seq<char> {
        self.version@
    }

    /// The module's author.
    pub closed spec fn spec_author(&self) -> Seq<char> {
        self.author@
    }

    /// The function table built so far.
    pub closed spec fn spec_functions(&self) -> Seq<FunctionEntry<H>> {
        self.functions@
    }

    /// The constants registered so far.
    pub closed spec fn spec_constants(&self) -> Seq<Constant> {
        self.constants@
    }

    /// The configuration entries registered so far.
    pub closed spec fn spec_ini_entities(&self) -> Seq<IniEntryDef> {
        self.ini_entities@
    }

    /// The info rows registered so far, as character sequences.
    pub closed spec fn spec_infos(&self) -> Seq<(Seq<char>, Seq<char>)> {
        self.infos@.map_values(|p: (String, String)| (p.0@, p.1@))
    }

    /// Every row of the table carries a handler: the builder only ever
    /// adds complete rows.
    pub open spec fn wf(&self) -> bool {
        forall|i: int|
            0 <= i < self.spec_functions().len() ==> (#[trigger] self.spec_functions()[i]).spec_handler() is Some
    }

    /// Begins describing a module from its base metadata.
    pub fn new(name: String, version: String, author: String) -> (r: Module<H>)
        ensures
            r.wf(),
            r.spec_name() == name@,
            r.spec_version() == version@,
            r.spec_author() == author@,
            r.spec_functions() == Seq::<FunctionEntry<H>>::empty(),
            r.spec_constants() == Seq::<Constant>::empty(),
            r.spec_ini_entities() == Seq::<IniEntryDef>::empty(),
            r.spec_infos() == Seq::<(Seq<char>, Seq<char>)>::empty(),
    {
        let r = Module {
            name,
            version,
            author,
            functions: Vec::new(),
            constants: Vec::new(),
            ini_entities: Vec::new(),
            infos: Vec::new(),
        };
        proof {
            assert(r.spec_infos() =~= Seq::<(Seq<char>, Seq<char>)>::empty());
        }
        r
    }

    /// Registers a function: its table row carries the name, the handler in
    /// the reserved field, and the argument counts read off the
    /// declarations.
    pub fn add_function(&mut self, name: String, arguments: Vec<Argument>, handler: H)
        requires
            arguments@.len() <= u32::MAX,
        ensures
            old(self).wf() ==> final(self).wf(),
            final(self).spec_functions().len() == old(self).spec_functions().len() + 1,
            forall|i: int|
                0 <= i < old(self).spec_functions().len() ==> final(self).spec_functions()[i]
                    == old(self).spec_functions()[i],
            final(self).spec_functions().last().spec_name() == name@,
            final(self).spec_functions().last().spec_handler() == Some(handler),
            final(self).spec_functions().last().spec_num_args() == arguments@.len(),
            final(self).spec_functions().last().spec_required_num_args()
                == crate::functions::spec_required_count(arguments@),
            final(self).spec_name() == old(self).spec_name(),
            final(self).spec_version() == old(self).spec_version(),
            final(self).spec_author() == old(self).spec_author(),
            final(self).spec_constants() == old(self).spec_constants(),
            final(self).spec_ini_entities() == old(self).spec_ini_entities(),
            final(self).spec_infos() == old(self).spec_infos(),
    {
        let entity = FunctionEntity::new(name, handler, arguments);
        let entry = FunctionEntry::from_function_entity(entity);
        self.functions.push(entry);
        proof {
            assert(self.spec_infos() =~= old(self).spec_infos());
        }
    }

    /// Registers a constant.
    pub fn add_constant(&mut self, name: String, value: Val, flags: Option<Flags>)
        ensures
            final(self).spec_constants().len() == old(self).spec_constants().len() + 1,
            forall|i: int|
                0 <= i < old(self).spec_constants().len() ==> final(self).spec_constants()[i]
                    == old(self).spec_constants()[i],
            final(self).spec_constants().last().spec_name() == name@,
            final(self).spec_constants().last().spec_value() == value@,
            final(self).spec_constants().last().spec_flags() == match flags {
                Some(f) => f.spec_bits(),
                None => CONST_CS | CONST_PERSISTENT,
            },
            final(self).spec_functions() == old(self).spec_functions(),
            final(self).spec_name() == old(self).spec_name(),
            final(self).spec_version() == old(self).spec_version(),
            final(self).spec_author() == old(self).spec_author(),
            final(self).spec_ini_entities() == old(self).spec_ini_entities(),
            final(self).spec_infos() == old(self).spec_infos(),
    {
        let constant = Constant::new(name, value, flags);
        self.constants.push(constant);
        proof {
            assert(self.spec_infos() =~= old(self).spec_infos());
        }
    }

    /// Registers a configuration entry with its rendered default and its
    /// change policy.
    pub fn add_ini<T: IntoIniValue>(&mut self, name: String, default_value: T, policy: Policy)
        ensures
            final(self).spec_ini_entities().len() == old(self).spec_ini_entities().len() + 1,
            forall|i: int|
                0 <= i < old(self).spec_ini_entities().len() ==> final(self).spec_ini_entities()[i] == old(self).spec_ini_entities()[i],
            final(self).spec_ini_entities().last().spec_name() == name@,
            final(self).spec_ini_entities().last().spec_default_value()
                == default_value.spec_ini_value(),
            final(self).spec_ini_entities().last().spec_modifiable() == policy.spec_raw(),
            final(self).spec_functions() == old(self).spec_functions(),
            final(self).spec_constants() == old(self).spec_constants(),
            final(self).spec_name() == old(self).spec_name(),
            final(self).spec_version() == old(self).spec_version(),
            final(self).spec_author() == old(self).spec_author(),
            final(self).spec_infos() == old(self).spec_infos(),
    {
        let rendered = default_value.into_ini_value();
        let raw = policy.to_raw();
        let entry = create_ini_entry_ex(name, rendered, raw);
        self.ini_entities.push(entry);
        proof {
            assert(self.spec_infos() =~= old(self).spec_infos());
        }
    }

    /// Registers an info row shown by the module's information table.
    pub fn add_info(&mut self, key: String, value: String)
        ensures
            final(self).spec_infos() == old(self).spec_infos().push((key@, value@)),
            final(self).spec_functions() == old(self).spec_functions(),
            final(self).spec_constants() == old(self).spec_constants(),
            final(self).spec_ini_entities() == old(self).spec_ini_entities(),
            final(self).spec_name() == old(self).spec_name(),
            final(self).spec_version() == old(self).spec_version(),
            final(self).spec_author() == old(self).spec_author(),
    {
        self.infos.push((key, value));
        proof {
            assert(self.spec_infos() =~= old(self).spec_infos().push(
                (self.infos@.last().0@, self.infos@.last().1@),
            ));
        }
    }

    /// Freezes the module into its descriptor.  Registration refuses a
    /// table holding one function name twice: that duplicate is the
    /// registration error that aborts module startup.
    pub fn module_entry(self) -> (r: Result<ModuleEntry<H>, RegistrationError>)
        requires
            self.wf(),
        ensures
            match r {
                Ok(me) => {
                    &&& fn_names_distinct(self.spec_functions())
                    &&& me.wf()
                    &&& me.spec_name() == self.spec_name()
                    &&& me.spec_version() == self.spec_version()
                    &&& me.spec_functions() == self.spec_functions()
                },
                Err(e) => {
                    &&& !fn_names_distinct(self.spec_functions())
                    &&& exists|i: int, j: int|
                        0 <= i < j < self.spec_functions().len()
                            && self.spec_functions()[i].spec_name()
                            == self.spec_functions()[j].spec_name() && e.spec_name()
                            == self.spec_functions()[j].spec_name()
                },
            },
    {
        let n = self.functions.len();
        let mut j: usize = 1;
        while j < n
            invariant
                n == self.spec_functions().len(),
                1 <= j || j == 1 || n == 0,
                j <= n || (n == 0 && j == 1),
                forall|a: int, b: int|
                    0 <= a < b < j && b < n ==> self.spec_functions()[a].spec_name() != self
                        .spec_functions()[b].spec_name(),
            decreases n - j,
        {
            let mut i: usize = 0;
            while i < j
                invariant
                    j < n,
                    n == self.spec_functions().len(),
                    i <= j,
                    forall|a: int|
                        0 <= a < i ==> self.spec_functions()[a].spec_name() != self
                            .spec_functions()[j as int].spec_name(),
                decreases j - i,
            {
                if *self.functions[i].name() == *self.functions[j].name() {
                    let dup = self.functions[j].name().clone();
                    proof {
                        assert(self.spec_functions()[i as int].spec_name() == self
                            .spec_functions()[j as int].spec_name());
                        assert(!fn_names_distinct(self.spec_functions()));
                    }
                    return Err(RegistrationError::new(dup));
                }
                i = i + 1;
            }
            j = j + 1;
        }
        Ok(ModuleEntry { name: self.name, version: self.version, functions: self.functions })
    }
}

/// The frozen module descriptor: the artifact handed to the host loader.
/// Its tables are immutable for the process lifetime; only the handlers
/// inside the rows evolve as the shim drives them.
pub struct ModuleEntry<H> {
    name: String,
    version: String,
    functions: Vec<FunctionEntry<H>>,
}

impl<H: Callable> ModuleEntry<H> {
    /// The descriptor's well-formedness, as registration guaranteed it:
    /// function names are unique and every row carries its handler.
    pub open spec fn wf(&self) -> bool {
        &&& fn_names_distinct(self.spec_functions())
        &&& forall|i: int|
            0 <= i < self.spec_functions().len() ==> (#[trigger] self.spec_functions()[i]).spec_handler() is Some
    }

    /// The module's name.
    pub closed spec fn spec_name(&self) -> Seq<char> {
        self.name@
    }

    /// The module's version.
    pub closed spec fn spec_version(&self) -> Seq<char> {
        self.version@
    }

    /// The function table.
    pub closed spec fn spec_functions(&self) -> Seq<FunctionEntry<H>> {
        self.functions@
    }

    /// The module's name.
    pub fn name(&self) -> (r: &String)
        ensures
            r@ == self.spec_name(),
    {
        &self.name
    }

    /// How many functions the table holds.
    pub fn function_count(&self) -> (r: usize)
        ensures
            r == self.spec_functions().len(),
    {
        self.functions.len()
    }

    /// Calls a registered function by name, as a script call would reach
    /// it: the dispatch shim checks the arity, runs the handler, and the
    /// pending exception — if one was installed — is taken and surfaced.
    pub fn call_function(&mut self, func_name: &str, arguments: Vec<Val>) -> (r: Result<
        Val,
        PhpException,
    >)
        requires
            old(self).wf(),
            arguments@.len() <= u32::MAX,
        ensures
            final(self).wf(),
            final(self).spec_name() == old(self).spec_name(),
            final(self).spec_version() == old(self).spec_version(),
            final(self).spec_functions().len() == old(self).spec_functions().len(),
            forall|i: int|
                0 <= i < final(self).spec_functions().len() ==> {
                    &&& (#[trigger] final(self).spec_functions()[i]).spec_name() == old(
                        self,
                    ).spec_functions()[i].spec_name()
                    &&& final(self).spec_functions()[i].spec_required_num_args() == old(
                        self,
                    ).spec_functions()[i].spec_required_num_args()
                },
            if !has_fn(old(self).spec_functions(), func_name@) {
                // Unknown name: the call is refused outright.
                &&& final(self).spec_functions() == old(self).spec_functions()
                &&& (r matches Err(e) && e@ == (crate::errors::ExceptionV {
                    class_name: "Error"@,
                    message: crate::errors::spec_undefined_function_message(func_name@),
                    code: 0,
                }))
            } else {
                let p = fn_pos(old(self).spec_functions(), func_name@);
                let entry = old(self).spec_functions()[p];
                if arguments@.len() < entry.spec_required_num_args() {
                    // Too few arguments: the arity exception surfaces and
                    // the handler never runs.
                    &&& final(self).spec_functions() == old(self).spec_functions()
                    &&& (r matches Err(e) && e@ == crate::functions::arity_exception_view(
                        func_name@,
                        entry.spec_required_num_args(),
                        arguments@.len() as u32,
                    ))
                } else {
                    // The handler ran once, on these arguments.
                    &&& (forall|i: int|
                        0 <= i < final(self).spec_functions().len() && i != p ==> final(self).spec_functions()[i] == old(self).spec_functions()[i])
                    &&& final(self).spec_functions()[p].spec_handler() is Some
                    &&& {
                        let h_pre = entry.spec_handler().unwrap();
                        let h_post = final(self).spec_functions()[p].spec_handler().unwrap();
                        exists|ret: Result<ValV, crate::errors::ExceptionV>, args_post: Seq<ValV>|
                            {
                                &&& h_pre.call_post(h_post, vals_view(arguments@), args_post, ret)
                                &&& match r {
                                    Ok(v) => ret == Ok::<ValV, crate::errors::ExceptionV>(v@),
                                    Err(e) => ret == Err::<ValV, crate::errors::ExceptionV>(e@),
                                }
                            }
                    }
                }
            },
    {
        let target = func_name.to_owned();
        let n = self.functions.len();
        let mut idx: usize = 0;
        let mut found: bool = false;
        while idx < n && !found
            invariant
                n == self.spec_functions().len(),
                idx <= n,
                target@ == func_name@,
                found ==> idx < n && self.spec_functions()[idx as int].spec_name() == func_name@,
                !found ==> forall|a: int|
                    0 <= a < idx ==> self.spec_functions()[a].spec_name() != func_name@,
            decreases n - idx, if found {
                0int
            } else {
                1int
            },
        {
            if *self.functions[idx].name() == target {
                found = true;
            } else {
                idx = idx + 1;
            }
        }
        if !found {
            proof {
                assert_by_contradiction!(!has_fn(self.spec_functions(), func_name@), {
                    let w = choose|w: int|
                        0 <= w < self.spec_functions().len() && self.spec_functions()[w].spec_name()
                            == func_name@;
                    assert(self.spec_functions()[w].spec_name() != func_name@);
                });
            }
            return Err(undefined_function_exception(func_name));
        }
        proof {
            assert(has_fn(self.spec_functions(), func_name@));
            let p = fn_pos(self.spec_functions(), func_name@);
            assert(self.spec_functions()[p].spec_name() == func_name@);
            assert(p == idx);
        }
        let num_args = self.functions[idx].num_args();
        let required = self.functions[idx].required_num_args();
        let ghost args_pre = vals_view(arguments@);
        let func = ZFunc::new(func_name.to_owned(), num_args, required, 1u32);
        let mut execute_data = ExecuteData::new(func, arguments);
        let mut return_value = Val::null();
        let mut exception_slot: Option<PhpException> = None;
        proof {
            execute_data.lemma_parts();
        }
        let ghost pre_args = execute_data.spec_args();
        let row = table_row_mut(&mut self.functions, idx);
        call_function_handler(row, &mut execute_data, &mut return_value, &mut exception_slot);
        let ghost slot_mid = exception_slot;
        let ghost rv_mid = return_value@;
        let ghost args_post = vals_view(execute_data.spec_args());
        let r = crate::functions::take_pending(&mut exception_slot, return_value);
        proof {
            let p = fn_pos(old(self).spec_functions(), func_name@);
            assert(p == idx);
            if args_pre.len() < old(self).spec_functions()[p].spec_required_num_args() {
                assert(self.spec_functions() =~= old(self).spec_functions());
            } else {
                let h_pre = old(self).spec_functions()[p].spec_handler().unwrap();
                let h_post = self.spec_functions()[p].spec_handler().unwrap();
                assert(vals_view(pre_args) == args_pre);
                assert(exists|ret: Result<ValV, crate::errors::ExceptionV>|
                    h_pre.call_post(h_post, args_pre, args_post, ret)
                        && crate::functions::marshal_post(ret, rv_mid, slot_mid));
                let ret = choose|ret: Result<ValV, crate::errors::ExceptionV>|
                    h_pre.call_post(h_post, args_pre, args_post, ret)
                        && crate::functions::marshal_post(ret, rv_mid, slot_mid);
                assert(h_pre.call_post(h_post, args_pre, args_post, ret)
                    && crate::functions::marshal_post(ret, rv_mid, slot_mid));
                assert(match r {
                    Ok(v) => ret == Ok::<ValV, crate::errors::ExceptionV>(v@),
                    Err(e) => ret == Err::<ValV, crate::errors::ExceptionV>(e@),
                });
            }
        }
        r
    }
}

/// Mutable access to one row of a function table.
fn table_row_mut<H: Callable>(v: &mut Vec<FunctionEntry<H>>, i: usize) -> (row: &mut FunctionEntry<
    H,
>)
    requires
        i < old(v)@.len(),
    ensures
        *row == old(v)@[i as int],
        final(v)@ == old(v)@.update(i as int, *final(row)),
{
    &mut v[i]
}

} // verus!
