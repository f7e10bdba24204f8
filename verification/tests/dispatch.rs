use std::cell::Cell;
use std::rc::Rc;

use phper::errors::PhpException;
use phper::functions::{call, Argument, Callable, FunctionEntry};
use phper::modules::{Module, ModuleEntry, ModuleInfo};
use phper::values::Val;
use phper::zend_result::ZResult;

struct SayHello {
    calls: Rc<Cell<u32>>,
}

impl Callable for SayHello {
    fn call(&mut self, args: &mut Vec<Val>) -> Result<Val, PhpException> {
        self.calls.set(self.calls.get() + 1);
        let name = match &args[0] {
            Val::Str(s) => s.clone(),
            _ => String::new(),
        };
        Ok(Val::Str(format!("Hello, {}!\n", name)))
    }
}

struct Failing;

impl Callable for Failing {
    fn call(&mut self, _args: &mut Vec<Val>) -> Result<Val, PhpException> {
        Err(PhpException::new("Exception".to_string(), "boom".to_string(), 7))
    }
}

fn hello_module(calls: &Rc<Cell<u32>>) -> ModuleEntry<SayHello> {
    let mut module: Module<SayHello> =
        Module::new("hello".to_string(), "1.0".to_string(), "tests".to_string());
    module.add_function(
        "say_hello".to_string(),
        vec![Argument::by_val("name".to_string())],
        SayHello { calls: calls.clone() },
    );
    module.module_entry().unwrap()
}

#[test]
fn say_hello_end_to_end() {
    let calls = Rc::new(Cell::new(0u32));
    let mut entry = hello_module(&calls);
    let r = entry
        .call_function("say_hello", vec![Val::Str("world".to_string())])
        .unwrap();
    assert!(matches!(r, Val::Str(s) if s == "Hello, world!\n"));
    assert_eq!(calls.get(), 1);
}

#[test]
fn arity_error_without_side_effect() {
    let calls = Rc::new(Cell::new(0u32));
    let mut entry = hello_module(&calls);
    let e = entry.call_function("say_hello", vec![]).unwrap_err();
    assert_eq!(e.class_name().as_str(), "ArgumentCountError");
    assert_eq!(
        e.message().as_str(),
        "Too few arguments to function say_hello(), 0 passed and at least 1 expected"
    );
    assert_eq!(e.code(), 0);
    assert_eq!(calls.get(), 0);
}

#[test]
fn undefined_function_is_refused() {
    let calls = Rc::new(Cell::new(0u32));
    let mut entry = hello_module(&calls);
    let e = entry.call_function("nope", vec![]).unwrap_err();
    assert_eq!(e.class_name().as_str(), "Error");
    assert_eq!(e.message().as_str(), "Call to undefined function nope()");
    assert_eq!(calls.get(), 0);
}

#[test]
fn free_call_reaches_the_table() {
    let calls = Rc::new(Cell::new(0u32));
    let mut entry = hello_module(&calls);
    let r = call(&mut entry, "say_hello", vec![Val::Str("there".to_string())]).unwrap();
    assert!(matches!(r, Val::Str(s) if s == "Hello, there!\n"));
}

#[test]
fn handler_error_surfaces_as_exception() {
    let mut module: Module<Failing> =
        Module::new("m".to_string(), "0.1".to_string(), "tests".to_string());
    module.add_function("fail".to_string(), vec![], Failing);
    let mut entry = module.module_entry().unwrap();
    let e = entry.call_function("fail", vec![]).unwrap_err();
    assert_eq!(e.class_name().as_str(), "Exception");
    assert_eq!(e.message().as_str(), "boom");
    assert_eq!(e.code(), 7);
}

#[test]
fn duplicate_function_name_aborts_registration() {
    let calls = Rc::new(Cell::new(0u32));
    let mut module: Module<SayHello> =
        Module::new("dup".to_string(), "0.1".to_string(), "tests".to_string());
    module.add_function("f".to_string(), vec![], SayHello { calls: calls.clone() });
    module.add_function("f".to_string(), vec![], SayHello { calls: calls.clone() });
    match module.module_entry() {
        Err(e) => assert_eq!(e.name().as_str(), "f"),
        Ok(_) => panic!("expected the duplicate name to be refused"),
    }
}

#[test]
fn optional_arguments_do_not_count_as_required() {
    let calls = Rc::new(Cell::new(0u32));
    let mut module: Module<SayHello> =
        Module::new("opt".to_string(), "0.1".to_string(), "tests".to_string());
    module.add_function(
        "greet".to_string(),
        vec![
            Argument::by_val("name".to_string()),
            Argument::by_val_optional("suffix".to_string()),
            Argument::by_ref_optional("out".to_string()),
            Argument::by_ref("sink".to_string()),
        ],
        SayHello { calls: calls.clone() },
    );
    let mut entry = module.module_entry().unwrap();
    // Two of the four declared arguments are required.
    let e = entry
        .call_function("greet", vec![Val::Str("x".to_string())])
        .unwrap_err();
    assert_eq!(
        e.message().as_str(),
        "Too few arguments to function greet(), 1 passed and at least 2 expected"
    );
    let ok = entry
        .call_function(
            "greet",
            vec![Val::Str("x".to_string()), Val::Null],
        )
        .unwrap();
    assert!(matches!(ok, Val::Str(s) if s == "Hello, x!\n"));
}

#[test]
fn module_metadata_and_rows() {
    let calls = Rc::new(Cell::new(0u32));
    let mut module: Module<SayHello> =
        Module::new("meta".to_string(), "2.0".to_string(), "tests".to_string());
    module.add_info("thanks".to_string(), "everyone".to_string());
    module.add_function("one".to_string(), vec![], SayHello { calls: calls.clone() });
    let entry = module.module_entry().unwrap();
    assert_eq!(entry.name().as_str(), "meta");
    assert_eq!(entry.function_count(), 1);

    let sentinel: FunctionEntry<SayHello> = FunctionEntry::empty();
    assert_eq!(sentinel.name().as_str(), "");

    let info = ModuleInfo { ty: 1, number: 3 };
    assert_eq!(info.number, 3);

    assert_eq!(ZResult::Success.to_raw(), 0);
    assert_eq!(ZResult::Failure.to_raw(), -1);
    assert!(ZResult::Success.is_success());
    assert!(!ZResult::Failure.is_success());
}
