use phper::constants::{Constant, Flags, CONST_CS, CONST_NO_FILE_CACHE, CONST_PERSISTENT};
use phper::ini::{bool_from_ini_value, create_ini_entry_ex, IntoIniValue, Policy, Stage, PHP_INI_ALL, PHP_INI_SYSTEM};
use phper::resources::{ZPersistentResource, ZRes};
use phper::smart_str::ZSmartStr;
use phper::strings::{i64_to_string, u32_to_string, u64_to_string};
use phper::errors::{ArgumentCountError, PhpException, Throwable, TypeMismatchError};
use phper::functions::{FunctionEntry, ZFunc};
use phper::zend::api::FunctionEntries;
use phper::values::{ExecuteData, Val};
use phper::zend::api::ModuleGlobals;

struct NopHandler;

impl phper::functions::Callable for NopHandler {
    fn call(
        &mut self,
        _args: &mut Vec<Val>,
    ) -> Result<Val, phper::errors::PhpException> {
        Ok(Val::Null)
    }
}

#[test]
fn decimal_rendering_is_exact() {
    assert_eq!(u64_to_string(0).as_str(), "0");
    assert_eq!(u64_to_string(12345).as_str(), "12345");
    assert_eq!(u64_to_string(u64::MAX).as_str(), "18446744073709551615");
    assert_eq!(u32_to_string(4007).as_str(), "4007");
    assert_eq!(i64_to_string(0).as_str(), "0");
    assert_eq!(i64_to_string(-1).as_str(), "-1");
    assert_eq!(i64_to_string(i64::MIN).as_str(), "-9223372036854775808");
    assert_eq!(i64_to_string(i64::MAX).as_str(), "9223372036854775807");
}

#[test]
fn constant_flags() {
    let f = Flags::default();
    assert_eq!(f.bits(), CONST_CS | CONST_PERSISTENT);
    let g = f.union(&Flags::from_bits(CONST_NO_FILE_CACHE));
    assert_eq!(g.bits(), CONST_PERSISTENT | CONST_NO_FILE_CACHE);
    assert!(g.contains(&Flags::from_bits(CONST_PERSISTENT)));
    assert!(!g.contains(&Flags::from_bits(8)));

    let c = Constant::new("ANSWER".to_string(), Val::Long(42), None);
    assert_eq!(c.name().as_str(), "ANSWER");
    assert!(matches!(c.value(), Val::Long(42)));
}

#[test]
fn ini_values_and_stages() {
    assert_eq!(true.into_ini_value().as_str(), "1");
    assert_eq!(false.into_ini_value().as_str(), "0");
    assert_eq!(100i64.into_ini_value().as_str(), "100");
    assert_eq!("keep".to_string().into_ini_value().as_str(), "keep");

    assert_eq!(Policy::All.to_raw(), PHP_INI_ALL);
    assert_eq!(Policy::System.to_raw(), PHP_INI_SYSTEM);

    for (raw, stage) in [
        (1u32, Stage::Startup),
        (2, Stage::Shutdown),
        (4, Stage::Activate),
        (8, Stage::Deactivate),
        (16, Stage::Runtime),
        (32, Stage::HtAccess),
    ] {
        let decoded = Stage::from_raw(raw).unwrap();
        assert_eq!(decoded.to_raw(), stage.to_raw());
    }
    assert!(Stage::from_raw(3).is_none());
    assert!(Stage::from_raw(0).is_none());

    let def = create_ini_entry_ex("hello.enable".to_string(), "1".to_string(), PHP_INI_ALL);
    assert_eq!(def.name().as_str(), "hello.enable");
    assert_eq!(def.default_value().as_str(), "1");

    for truthy in ["1", "true", "on", "On"] {
        assert!(bool_from_ini_value(Some(truthy)));
    }
    for falsy in ["0", "false", "off", "ON", "yes", ""] {
        assert!(!bool_from_ini_value(Some(falsy)));
    }
    assert!(!bool_from_ini_value(None));
}

#[test]
fn smart_str_builds_text() {
    let mut s = ZSmartStr::new();
    assert!(s.is_empty());
    s.append_string("count=");
    s.append_long(-12);
    s.append_string("/");
    s.append_unsigned(7);
    let mut t = ZSmartStr::with_capacity(64);
    assert_eq!(t.allocated_size(), 64);
    t.extend(8);
    assert_eq!(t.allocated_size(), 72);
    t.append_smart_str(&s);
    assert_eq!(t.len(), 11);
    t.append_char('!');
    assert_eq!(t.len(), 12);
    assert_eq!(t.build().as_str(), "count=-12/7!");
    s.append_null_byte();
    assert_eq!(s.build().as_str(), "count=-12/7\0");
    assert_eq!(ZSmartStr::default().len(), 0);
}

#[test]
fn resources_carry_payloads() {
    let mut r = ZRes::new(5, String::from("conn"));
    assert_eq!(r.handle(), 5);
    assert_eq!(r.value().as_str(), "conn");
    r.value_mut().push('!');
    assert_eq!(r.value().as_str(), "conn!");

    let p = ZPersistentResource::new("pool#1".to_string(), "pool".to_string(), 99u32);
    assert_eq!(p.hash().as_str(), "pool#1");
    assert_eq!(*p.value(), 99);
}

#[test]
fn function_entry_tables_hold_rows() {
    let rows: [FunctionEntry<NopHandler>; 2] =
        [FunctionEntry::empty(), FunctionEntry::empty()];
    let table: FunctionEntries<NopHandler, 2> = FunctionEntries::new(rows);
    assert_eq!(table.get(0).name().as_str(), "");
    assert_eq!(table.get(1).name().as_str(), "");
}

#[test]
fn module_globals_hold_one_value() {
    let mut g = ModuleGlobals::new(10u64);
    assert_eq!(g.get(), 10);
    g.set(11);
    assert_eq!(g.get(), 11);
}

#[test]
fn execute_data_reads_frame_metadata() {
    let func = ZFunc::new("f".to_string(), 2, 1, 1);
    assert_eq!(func.get_function_name().unwrap().as_str(), "f");
    assert!(ZFunc::new(String::new(), 0, 0, 0).get_function_name().is_none());

    let mut frame = ExecuteData::new(func, vec![Val::Long(1), Val::Null]);
    assert_eq!(frame.num_args(), 2);
    assert_eq!(frame.common_num_args(), 2);
    assert_eq!(frame.common_required_num_args(), 1);
    assert_eq!(frame.get_function_or_method_name().as_str(), "f");
    assert_eq!(frame.func().flags(), 1);
    let taken = frame.get_parameters_array();
    assert_eq!(taken.len(), 2);
    assert!(matches!(taken[0], Val::Long(1)));
    assert_eq!(frame.num_args(), 0);
}

#[test]
fn error_values_carry_their_fields() {
    let a = ArgumentCountError::new("f".to_string(), 3, 1);
    assert_eq!(a.required(), 3);
    assert_eq!(a.actual(), 1);
    assert_eq!(a.function_name().as_str(), "f");
    assert_eq!(
        a.message().as_str(),
        "Too few arguments to function f(), 1 passed and at least 3 expected"
    );
    let e = a.to_exception();
    assert_eq!(e.class_name().as_str(), "ArgumentCountError");

    let t = TypeMismatchError::new("int".to_string(), "string".to_string());
    let e = t.to_exception();
    assert_eq!(e.class_name().as_str(), "TypeError");
    assert_eq!(e.message().as_str(), "type mismatch: expected int, got string");

    let p = PhpException::new("Exception".to_string(), "m".to_string(), 2);
    assert_eq!(p.code(), 2);
    assert_eq!(p.message().as_str(), "m");
}
