//! The error taxonomy of the binding layer, and the runtime exception
//! object that every surfaced error becomes.

use vstd::prelude::*;

use crate::strings::{spec_u64_string, u32_to_string};

verus! {

/// Mathematical model of a runtime exception object: the class it
/// instantiates, its message, and its numeric code.
pub struct ExceptionV {
    /// Characters of the exception class name.
    pub class_name: Seq<char>,
    /// Characters of the message.
    pub message: Seq<char>,
    /// The numeric code.
    pub code: int,
}

/// A runtime exception object, as handed to the pending-exception slot.
#[derive(Debug)]
pub struct PhpException {
    class_name: String,
    message: String,
    code: i64,
}

impl View for PhpException {
    type V = ExceptionV;

    closed spec fn view(&self) -> ExceptionV {
        ExceptionV { class_name: self.class_name@, message: self.message@, code: self.code as int }
    }
}

impl PhpException {
    /// Builds an exception from its class name, message and code.
    pub fn new(class_name: String, message: String, code: i64) -> (r: PhpException)
        ensures
            r@ == (ExceptionV { class_name: class_name@, message: message@, code: code as int }),
    {
        PhpException { class_name, message, code }
    }

    /// The name of the class the exception instantiates.
    pub fn class_name(&self) -> (r: &String)
        ensures
            r@ == self@.class_name,
    {
        &self.class_name
    }

    /// The exception message.
    pub fn message(&self) -> (r: &String)
        ensures
            r@ == self@.message,
    {
        &self.message
    }

    /// The numeric code.
    pub fn code(&self) -> (r: i64)
        ensures
            r as int == self@.code,
    {
        self.code
    }
}

/// An error that can be surfaced to the runtime as an exception.  User
/// failure types implement this; the trait ties the built exception to the
/// implementor's own statement of it.
pub trait Throwable {
    /// The exception this error raises.
    spec fn exception_view(&self) -> ExceptionV;

    /// Builds the runtime exception object for this error.
    fn to_exception(&self) -> (e: PhpException)
        ensures
            e@ == self.exception_view(),
    ;
}

/// The message of an arity error, as the engine words it.
pub open spec fn spec_arity_message(name: Seq<char>, required: u32, actual: u32) -> Seq<char> {
    "Too few arguments to function "@ + name + "(), "@ + spec_u64_string(actual as nat)
        + " passed and at least "@ + spec_u64_string(required as nat) + " expected"@
}

/// Calling a function with fewer arguments than it requires.  The dispatch
/// shim synthesizes this before any handler runs.
#[derive(Debug)]
pub struct ArgumentCountError {
    function_name: String,
    required: u32,
    actual: u32,
}

impl ArgumentCountError {
    /// Records the function called, its required argument count, and the
    /// count actually passed.
    pub fn new(function_name: String, required: u32, actual: u32) -> (r: ArgumentCountError)
        ensures
            r.spec_function_name() == function_name@,
            r.spec_required() == required,
            r.spec_actual() == actual,
    {
        ArgumentCountError { function_name, required, actual }
    }

    /// The fully-qualified name of the function called.
    pub closed spec fn spec_function_name(&self) -> Seq<char> {
        self.function_name@
    }

    /// The declared required argument count.
    pub closed spec fn spec_required(&self) -> u32 {
        self.required
    }

    /// The argument count the call actually carried.
    pub closed spec fn spec_actual(&self) -> u32 {
        self.actual
    }

    /// The required argument count.
    pub fn required(&self) -> (r: u32)
        ensures
            r == self.spec_required(),
    {
        self.required
    }

    /// The argument count the call carried.
    pub fn actual(&self) -> (r: u32)
        ensures
            r == self.spec_actual(),
    {
        self.actual
    }

    /// The function name the error speaks of.
    pub fn function_name(&self) -> (r: &String)
        ensures
            r@ == self.spec_function_name(),
    {
        &self.function_name
    }

    /// The message the exception will carry.
    pub fn message(&self) -> (r: String)
        ensures
            r@ == spec_arity_message(self.spec_function_name(), self.spec_required(), self.spec_actual()),
    {
        let mut s = "Too few arguments to function ".to_owned();
        s.append(self.function_name.as_str());
        s.append("(), ");
        let actual = u32_to_string(self.actual);
        s.append(actual.as_str());
        s.append(" passed and at least ");
        let required = u32_to_string(self.required);
        s.append(required.as_str());
        s.append(" expected");
        s
    }
}

impl Throwable for ArgumentCountError {
    open spec fn exception_view(&self) -> ExceptionV {
        ExceptionV {
            class_name: "ArgumentCountError"@,
            message: spec_arity_message(
                self.spec_function_name(),
                self.spec_required(),
                self.spec_actual(),
            ),
            code: 0,
        }
    }

    fn to_exception(&self) -> (e: PhpException) {
        PhpException::new("ArgumentCountError".to_owned(), self.message(), 0)
    }
}

/// Reading a value cell through an accessor its tag does not support.
#[derive(Debug)]
pub struct TypeMismatchError {
    expected: String,
    actual: String,
}

/// The message of a type-mismatch error.
pub open spec fn spec_type_mismatch_message(expected: Seq<char>, actual: Seq<char>) -> Seq<char> {
    "type mismatch: expected "@ + expected + ", got "@ + actual
}

impl TypeMismatchError {
    /// Records the type name the accessor wanted and the one the cell held.
    pub fn new(expected: String, actual: String) -> (r: TypeMismatchError)
        ensures
            r.spec_expected() == expected@,
            r.spec_actual() == actual@,
    {
        TypeMismatchError { expected, actual }
    }

    /// The type name the accessor wanted.
    pub closed spec fn spec_expected(&self) -> Seq<char> {
        self.expected@
    }

    /// The type name the cell held.
    pub closed spec fn spec_actual(&self) -> Seq<char> {
        self.actual@
    }

    /// The type name the accessor wanted.
    pub fn expected(&self) -> (r: &String)
        ensures
            r@ == self.spec_expected(),
    {
        &self.expected
    }

    /// The type name the cell held.
    pub fn actual(&self) -> (r: &String)
        ensures
            r@ == self.spec_actual(),
    {
        &self.actual
    }
}

impl Throwable for TypeMismatchError {
    open spec fn exception_view(&self) -> ExceptionV {
        ExceptionV {
            class_name: "TypeError"@,
            message: spec_type_mismatch_message(self.spec_expected(), self.spec_actual()),
            code: 0,
        }
    }

    fn to_exception(&self) -> (e: PhpException) {
        let mut s = "type mismatch: expected ".to_owned();
        s.append(self.expected.as_str());
        s.append(", got ");
        s.append(self.actual.as_str());
        PhpException::new("TypeError".to_owned(), s, 0)
    }
}

/// The message thrown for a call to a function no table holds.
pub open spec fn spec_undefined_function_message(name: Seq<char>) -> Seq<char> {
    "Call to undefined function "@ + name + "()"@
}

/// The exception thrown for a call to a function no table holds.
pub fn undefined_function_exception(name: &str) -> (e: PhpException)
    ensures
        e@ == (ExceptionV {
            class_name: "Error"@,
            message: spec_undefined_function_message(name@),
            code: 0,
        }),
{
    let mut s = "Call to undefined function ".to_owned();
    s.append(name);
    s.append("()");
    PhpException::new("Error".to_owned(), s, 0)
}

/// The message thrown for a call to a method the class does not declare.
pub open spec fn spec_undefined_method_message(name: Seq<char>) -> Seq<char> {
    "Call to undefined method "@ + name + "()"@
}

/// The exception thrown for a call to a method the class does not declare.
pub fn undefined_method_exception(name: &str) -> (e: PhpException)
    ensures
        e@ == (ExceptionV {
            class_name: "Error"@,
            message: spec_undefined_method_message(name@),
            code: 0,
        }),
{
    let mut s = "Call to undefined method ".to_owned();
    s.append(name);
    s.append("()");
    PhpException::new("Error".to_owned(), s, 0)
}

/// The message thrown for a call to an abstract method.
pub open spec fn spec_abstract_method_message(name: Seq<char>) -> Seq<char> {
    "Cannot call abstract method "@ + name + "()"@
}

/// The exception thrown for a call to an abstract method.
pub fn abstract_method_exception(name: &str) -> (e: PhpException)
    ensures
        e@ == (ExceptionV {
            class_name: "Error"@,
            message: spec_abstract_method_message(name@),
            code: 0,
        }),
{
    let mut s = "Cannot call abstract method ".to_owned();
    s.append(name);
    s.append("()");
    PhpException::new("Error".to_owned(), s, 0)
}

/// Asking the class table for a class it does not hold.
#[derive(Debug)]
pub struct ClassNotFoundError {
    class_name: String,
}

impl ClassNotFoundError {
    /// Records the class name that was not found.
    pub fn new(class_name: String) -> (r: ClassNotFoundError)
        ensures
            r.spec_class_name() == class_name@,
    {
        ClassNotFoundError { class_name }
    }

    /// The class name that was not found.
    pub closed spec fn spec_class_name(&self) -> Seq<char> {
        self.class_name@
    }

    /// The class name that was not found.
    pub fn class_name(&self) -> (r: &String)
        ensures
            r@ == self.spec_class_name(),
    {
        &self.class_name
    }
}

impl Throwable for ClassNotFoundError {
    open spec fn exception_view(&self) -> ExceptionV {
        ExceptionV {
            class_name: "Error"@,
            message: "class not found: "@ + self.spec_class_name(),
            code: 0,
        }
    }

    fn to_exception(&self) -> (e: PhpException) {
        let mut s = "class not found: ".to_owned();
        s.append(self.class_name.as_str());
        PhpException::new("Error".to_owned(), s, 0)
    }
}

/// Registering an entity under a name the runtime already holds.  Fatal to
/// module startup.
#[derive(Debug)]
pub struct RegistrationError {
    name: String,
}

impl RegistrationError {
    /// Records the name that was already taken.
    pub fn new(name: String) -> (r: RegistrationError)
        ensures
            r.spec_name() == name@,
    {
        RegistrationError { name }
    }

    /// The name that was already taken.
    pub closed spec fn spec_name(&self) -> Seq<char> {
        self.name@
    }

    /// The name that was already taken.
    pub fn name(&self) -> (r: &String)
        ensures
            r@ == self.spec_name(),
    {
        &self.name
    }
}

} // verus!
