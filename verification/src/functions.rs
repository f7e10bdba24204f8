//! Function registration and the native-call dispatch shim.
//!
//! Every registered function is described by a [`FunctionEntity`] and frozen
//! into a [`FunctionEntry`], the native-ABI table row.  The row carries the
//! typed handler in a structurally-reserved field of its own, so the shim
//! recovers it without pointer arithmetic; the row must outlive every call
//! that the runtime makes through it.
//!
//! The shim itself is [`call_function_handler`]: the one entry point for
//! every native call.  Per invocation it recovers the declared and actual
//! argument counts, synthesizes an arity error — never invoking the handler
//! — when too few arguments arrived, and otherwise invokes the handler and
//! marshals its result or its error into the return slot and the
//! pending-exception slot.

use vstd::prelude::*;

use crate::errors::{ArgumentCountError, ExceptionV, PhpException, Throwable};
use crate::values::{ExecuteData, Val, ValV};

verus! {

/// Flag bits for a public entry, as the native ABI counts them.
pub const ACC_PUBLIC: u32 = 1;

/// The views of a run of value cells.
pub open spec fn vals_view(s: Seq<Val>) -> Seq<ValV> {
    s.map_values(|v: Val| v@)
}

/// The view of a handler outcome.
pub open spec fn outcome_view(r: Result<Val, PhpException>) -> Result<ValV, ExceptionV> {
    match r {
        Ok(v) => Ok(v@),
        Err(e) => Err(e@),
    }
}

/// A typed handler behind a registered function.  Implementors are the
/// user's closures, adapted to this one calling interface; the trait's spec
/// relation is the implementor's own statement of what a call establishes.
pub trait Callable: Sized {
    /// What one call establishes: relates the handler before and after the
    /// call, the arguments before and after, and the outcome.  The default
    /// states nothing; a verified implementor overrides it with its own
    /// statement.
    open spec fn call_post(
        &self,
        post: Self,
        args_pre: Seq<ValV>,
        args_post: Seq<ValV>,
        ret: Result<ValV, ExceptionV>,
    ) -> bool {
        true
    }

    /// Handles one call.
    fn call(&mut self, args: &mut Vec<Val>) -> (r: Result<Val, PhpException>)
        ensures
            old(self).call_post(*final(self), vals_view(old(args)@), vals_view(final(args)@), outcome_view(r)),
    ;
}

/// Function or method argument descriptor, as the out-of-band metadata
/// tables carry it.
pub struct Argument {
    name: String,
    pass_by_ref: bool,
    required: bool,
}

impl Argument {
    /// A required argument passed by value.
    pub fn by_val(name: String) -> (r: Argument)
        ensures
            r.spec_name() == name@,
            !r.spec_pass_by_ref(),
            r.spec_required(),
    {
        Argument { name, pass_by_ref: false, required: true }
    }

    /// A required argument passed by reference.
    pub fn by_ref(name: String) -> (r: Argument)
        ensures
            r.spec_name() == name@,
            r.spec_pass_by_ref(),
            r.spec_required(),
    {
        Argument { name, pass_by_ref: true, required: true }
    }

    /// An optional argument passed by value.
    pub fn by_val_optional(name: String) -> (r: Argument)
        ensures
            r.spec_name() == name@,
            !r.spec_pass_by_ref(),
            !r.spec_required(),
    {
        Argument { name, pass_by_ref: false, required: false }
    }

    /// An optional argument passed by reference.
    pub fn by_ref_optional(name: String) -> (r: Argument)
        ensures
            r.spec_name() == name@,
            r.spec_pass_by_ref(),
            !r.spec_required(),
    {
        Argument { name, pass_by_ref: true, required: false }
    }

    /// The argument's name.
    pub closed spec fn spec_name(&self) -> Seq<char> {
        self.name@
    }

    /// Whether the argument is passed by reference.
    pub closed spec fn spec_pass_by_ref(&self) -> bool {
        self.pass_by_ref
    }

    /// Whether the argument is required.
    pub closed spec fn spec_required(&self) -> bool {
        self.required
    }

    /// Whether the argument is required.
    pub fn is_required(&self) -> (r: bool)
        ensures
            r == self.spec_required(),
    {
        self.required
    }
}

/// How many of the arguments are required.
pub open spec fn spec_required_count(args: Seq<Argument>) -> nat
    decreases args,
{
    if args.len() == 0 {
        0
    } else {
        spec_required_count(args.drop_last()) + if args.last().spec_required() {
            1nat
        } else {
            0
        }
    }
}

/// Counts the required arguments of a declaration.
pub fn required_count(args: &Vec<Argument>) -> (r: usize)
    ensures
        r == spec_required_count(args@),
        r <= args@.len(),
{
    let mut count: usize = 0;
    let mut i: usize = 0;
    while i < args.len()
        invariant
            i <= args@.len(),
            count == spec_required_count(args@.take(i as int)),
            count <= i,
        decreases args@.len() - i,
    {
        proof {
            assert(args@.take(i as int + 1).drop_last() =~= args@.take(i as int));
            assert(args@.take(i as int + 1).last() == args@[i as int]);
        }
        if args[i].is_required() {
            count = count + 1;
        }
        i = i + 1;
    }
    proof {
        assert(args@.take(args@.len() as int) =~= args@);
    }
    count
}

/// Builder for registering a function: its name, its typed handler, and its
/// argument declarations.
pub struct FunctionEntity<H> {
    pub(crate) name: String,
    pub(crate) handler: H,
    pub(crate) arguments: Vec<Argument>,
}

impl<H: Callable> FunctionEntity<H> {
    /// Describes a function to register.
    pub fn new(name: String, handler: H, arguments: Vec<Argument>) -> (r: FunctionEntity<H>)
        ensures
            r.spec_name() == name@,
            r.spec_handler() == handler,
            r.spec_arguments() == arguments@,
    {
        FunctionEntity { name, handler, arguments }
    }

    /// The function's name.
    pub closed spec fn spec_name(&self) -> Seq<char> {
        self.name@
    }

    /// The typed handler.
    pub closed spec fn spec_handler(&self) -> H {
        self.handler
    }

    /// The argument declarations.
    pub closed spec fn spec_arguments(&self) -> Seq<Argument> {
        self.arguments@
    }
}

/// A row of the native function table.  The handler sits in a
/// structurally-reserved field of the row itself — the one mechanism this
/// crate uses to attach typed handlers to the fixed-layout ABI — and must
/// stay valid for as long as the runtime retains the row.
pub struct FunctionEntry<H> {
    pub(crate) fname: String,
    pub(crate) handler: Option<H>,
    pub(crate) num_args: u32,
    pub(crate) required_num_args: u32,
    pub(crate) flags: u32,
}

impl<H: Callable> FunctionEntry<H> {
    /// The row's function name.
    pub closed spec fn spec_name(&self) -> Seq<char> {
        self.fname@
    }

    /// The handler carried in the reserved field, if any.
    pub closed spec fn spec_handler(&self) -> Option<H> {
        self.handler
    }

    /// The declared argument count.
    pub closed spec fn spec_num_args(&self) -> u32 {
        self.num_args
    }

    /// The declared required argument count.
    pub closed spec fn spec_required_num_args(&self) -> u32 {
        self.required_num_args
    }

    /// The row's flag bits.
    pub closed spec fn spec_flags(&self) -> u32 {
        self.flags
    }

    /// The row's function name.
    pub fn name(&self) -> (r: &String)
        ensures
            r@ == self.spec_name(),
    {
        &self.fname
    }

    /// The declared required argument count.
    pub fn required_num_args(&self) -> (r: u32)
        ensures
            r == self.spec_required_num_args(),
    {
        self.required_num_args
    }

    /// The declared argument count.
    pub fn num_args(&self) -> (r: u32)
        ensures
            r == self.spec_num_args(),
    {
        self.num_args
    }

    /// The end-of-table sentinel row: no name, no handler.
    pub fn empty() -> (r: FunctionEntry<H>)
        ensures
            r.spec_name() == Seq::<char>::empty(),
            r.spec_handler() is None,
    {
        FunctionEntry {
            fname: String::new(),
            handler: None,
            num_args: 0,
            required_num_args: 0,
            flags: 0,
        }
    }

    /// Freezes a function description into a table row.  The declared
    /// argument counts are taken from the declarations; the handler moves
    /// into the reserved field.
    pub fn from_function_entity(entity: FunctionEntity<H>) -> (r: FunctionEntry<H>)
        requires
            entity.spec_arguments().len() <= u32::MAX,
        ensures
            r.spec_name() == entity.spec_name(),
            r.spec_handler() == Some(entity.spec_handler()),
            r.spec_num_args() == entity.spec_arguments().len(),
            r.spec_required_num_args() == spec_required_count(entity.spec_arguments()),
            r.spec_flags() == ACC_PUBLIC,
    {
        let required = required_count(&entity.arguments);
        FunctionEntry {
            fname: entity.name,
            handler: Some(entity.handler),
            num_args: entity.arguments.len() as u32,
            required_num_args: required as u32,
            flags: ACC_PUBLIC,
        }
    }
}

/// The outcome the shim writes back, as a relation over the model: on `Ok`
/// the return slot takes the handler's value and the pending-exception slot
/// stays empty; on `Err` the return slot takes null and the slot takes the
/// handler's exception.
pub open spec fn marshal_post(
    ret: Result<ValV, ExceptionV>,
    return_value: ValV,
    exception_slot: Option<PhpException>,
) -> bool {
    match ret {
        Ok(v) => return_value == v && exception_slot is None,
        Err(e) => return_value == ValV::Null && match exception_slot {
            Some(pe) => pe@ == e,
            None => false,
        },
    }
}

/// The view of the arity exception the shim synthesizes.
pub open spec fn arity_exception_view(name: Seq<char>, required: u32, actual: u32) -> ExceptionV {
    ExceptionV {
        class_name: "ArgumentCountError"@,
        message: crate::errors::spec_arity_message(name, required, actual),
        code: 0,
    }
}

/// The dispatch shim: the single native entry point behind every registered
/// function.  When the call carries fewer arguments than the function
/// requires, the shim installs an arity exception and writes null into the
/// return slot, and the handler is not invoked — the entry, with its
/// handler, is left exactly as it was.  Otherwise it invokes the handler on
/// the call frame's arguments and marshals the outcome.
pub fn call_function_handler<H: Callable>(
    entry: &mut FunctionEntry<H>,
    execute_data: &mut ExecuteData,
    return_value: &mut Val,
    exception_slot: &mut Option<PhpException>,
)
    requires
        old(entry).spec_handler() is Some,
        (*old(exception_slot)) is None,
        old(execute_data).spec_args().len() <= u32::MAX,
    ensures
        final(entry).spec_name() == old(entry).spec_name(),
        final(entry).spec_num_args() == old(entry).spec_num_args(),
        final(entry).spec_required_num_args() == old(entry).spec_required_num_args(),
        final(entry).spec_flags() == old(entry).spec_flags(),
        final(execute_data).spec_func() == old(execute_data).spec_func(),
        if old(execute_data).spec_args().len() < old(execute_data).spec_func().spec_required_num_args() {
            // Arity failure: locally synthesized, the handler never runs.
            &&& *final(entry) == *old(entry)
            &&& *final(execute_data) == *old(execute_data)
            &&& final(return_value)@ == ValV::Null
            &&& match *final(exception_slot) {
                Some(e) => e@ == arity_exception_view(
                    old(execute_data).spec_func().spec_name(),
                    old(execute_data).spec_func().spec_required_num_args(),
                    old(execute_data).spec_args().len() as u32,
                ),
                None => false,
            }
        } else {
            // The handler ran once, on the frame's arguments.
            &&& final(entry).spec_handler() matches Some(h_post) && exists|
                ret: Result<ValV, ExceptionV>,
            |
                {
                    &&& old(entry).spec_handler().unwrap().call_post(
                        h_post,
                        vals_view(old(execute_data).spec_args()),
                        vals_view(final(execute_data).spec_args()),
                        ret,
                    )
                    &&& marshal_post(ret, final(return_value)@, *final(exception_slot))
                }
        },
{
    let num_args = execute_data.num_args();
    let required_num_args = execute_data.common_required_num_args();
    if num_args < required_num_args as usize {
        let func_name = execute_data.get_function_or_method_name();
        let err = ArgumentCountError::new(func_name, required_num_args, num_args as u32);
        *exception_slot = Some(err.to_exception());
        *return_value = Val::null();
        proof {
            old(execute_data).lemma_parts();
            execute_data.lemma_parts();
        }
        return ;
    }
    let r = match &mut entry.handler {
        Some(h) => h.call(&mut execute_data.args),
        None => Err(PhpException::new(String::new(), String::new(), 0)),
    };
    let ghost rv = outcome_view(r);
    match r {
        Ok(v) => {
            *return_value = v;
        },
        Err(e) => {
            *exception_slot = Some(e);
            *return_value = Val::null();
        },
    }
    proof {
        old(execute_data).lemma_parts();
        execute_data.lemma_parts();
        assert(marshal_post(rv, return_value@, *exception_slot));
    }
}

/// The runtime's function descriptor: the metadata a call frame points at.
pub struct ZFunc {
    pub(crate) name: String,
    pub(crate) num_args: u32,
    pub(crate) required_num_args: u32,
    pub(crate) flags: u32,
}

impl ZFunc {
    /// Describes a function: name, declared argument count, required
    /// argument count, and flag bits.
    pub fn new(name: String, num_args: u32, required_num_args: u32, flags: u32) -> (r: ZFunc)
        ensures
            r.spec_name() == name@,
            r.spec_num_args() == num_args,
            r.spec_required_num_args() == required_num_args,
            r.spec_flags() == flags,
    {
        ZFunc { name, num_args, required_num_args, flags }
    }

    /// The function's name.
    pub closed spec fn spec_name(&self) -> Seq<char> {
        self.name@
    }

    /// The declared argument count.
    pub closed spec fn spec_num_args(&self) -> u32 {
        self.num_args
    }

    /// The required argument count.
    pub closed spec fn spec_required_num_args(&self) -> u32 {
        self.required_num_args
    }

    /// The flag bits.
    pub closed spec fn spec_flags(&self) -> u32 {
        self.flags
    }

    /// The declared argument count.
    pub fn num_args(&self) -> (r: u32)
        ensures
            r == self.spec_num_args(),
    {
        self.num_args
    }

    /// The required argument count.
    pub fn required_num_args(&self) -> (r: u32)
        ensures
            r == self.spec_required_num_args(),
    {
        self.required_num_args
    }

    /// The flag bits.
    pub fn flags(&self) -> (r: u32)
        ensures
            r == self.spec_flags(),
    {
        self.flags
    }

    /// The function's name, if it has one: an empty name reads as absent.
    pub fn get_function_name(&self) -> (r: Option<&String>)
        ensures
            match r {
                Some(s) => s@ == self.spec_name() && self.spec_name().len() > 0,
                None => self.spec_name().len() == 0,
            },
    {
        if self.name.as_str().is_empty() {
            None
        } else {
            Some(&self.name)
        }
    }

    /// The function or method's fully-qualified name.
    pub fn get_function_or_method_name(&self) -> (r: String)
        ensures
            r@ == self.spec_name(),
    {
        self.name.clone()
    }
}

/// Calls a registered function by name, as user code calls a callable: the
/// lookup, the arity gate and the handler run as
/// [`crate::modules::ModuleEntry::call_function`] states them.
pub fn call<H: Callable>(
    module: &mut crate::modules::ModuleEntry<H>,
    func_name: &str,
    arguments: Vec<Val>,
) -> (r: Result<Val, PhpException>)
    requires
        old(module).wf(),
        arguments@.len() <= u32::MAX,
    ensures
        final(module).wf(),
        if !crate::modules::has_fn(old(module).spec_functions(), func_name@) {
            &&& final(module).spec_functions() == old(module).spec_functions()
            &&& (r matches Err(e) && e@ == (ExceptionV {
                class_name: "Error"@,
                message: crate::errors::spec_undefined_function_message(func_name@),
                code: 0,
            }))
        } else {
            let p = crate::modules::fn_pos(old(module).spec_functions(), func_name@);
            let entry = old(module).spec_functions()[p];
            if arguments@.len() < entry.spec_required_num_args() {
                &&& final(module).spec_functions() == old(module).spec_functions()
                &&& (r matches Err(e) && e@ == arity_exception_view(
                    func_name@,
                    entry.spec_required_num_args(),
                    arguments@.len() as u32,
                ))
            } else {
                &&& final(module).spec_functions()[p].spec_handler() is Some
                &&& {
                    let h_pre = entry.spec_handler().unwrap();
                    let h_post = final(module).spec_functions()[p].spec_handler().unwrap();
                    exists|ret: Result<ValV, ExceptionV>, args_post: Seq<ValV>|
                        {
                            &&& h_pre.call_post(h_post, vals_view(arguments@), args_post, ret)
                            &&& match r {
                                Ok(v) => ret == Ok::<ValV, ExceptionV>(v@),
                                Err(e) => ret == Err::<ValV, ExceptionV>(e@),
                            }
                        }
                }
            }
        },
{
    module.call_function(func_name, arguments)
}

/// What the shim's marshalling pins down wherever a handler's outcome is
/// known: a successful outcome lands exactly its value in the return slot
/// and leaves no exception pending, and a failed one lands null and
/// installs exactly the handler's exception.
pub proof fn lemma_marshal_post_pins(
    ret: Result<ValV, ExceptionV>,
    return_value: ValV,
    exception_slot: Option<PhpException>,
)
    requires
        marshal_post(ret, return_value, exception_slot),
    ensures
        ret matches Ok(v) ==> return_value == v && exception_slot is None,
        ret matches Err(e) ==> return_value == ValV::Null && (exception_slot matches Some(pe)
            && pe@ == e),
{
}

/// Takes the pending exception, if one is set, after a nested native call:
/// a set slot means the call threw and its return value is meaningless.
/// Either way the slot is clear afterwards.
pub fn take_pending(exception_slot: &mut Option<PhpException>, ret: Val) -> (r: Result<
    Val,
    PhpException,
>)
    ensures
        *final(exception_slot) is None,
        match r {
            Ok(v) => *old(exception_slot) is None && v == ret,
            Err(e) => *old(exception_slot) == Some(e),
        },
{
    let pending = exception_slot.take();
    match pending {
        Some(e) => Err(e),
        None => Ok(ret),
    }
}

} // verus!
