use std::cell::Cell;
use std::rc::Rc;

use phper::classes::{
    ClassEntity, ClassTable, Handler, InterfaceEntity, MethodEntityBuilder, Scalar,
    StateConstructor, UnitStateConstructor, Visibility,
};
use phper::errors::PhpException;
use phper::functions::Argument;
use phper::objects::StateObject;
use phper::values::Val;

struct NoMethods;

impl Handler for NoMethods {
    type State = ();

    fn execute(
        &mut self,
        _this: &mut StateObject<()>,
        _args: &mut Vec<Val>,
    ) -> Result<Val, PhpException> {
        Ok(Val::Null)
    }
}

#[derive(Default)]
struct Payload {
    value: i64,
    drops: Option<Rc<Cell<u32>>>,
}

impl Drop for Payload {
    fn drop(&mut self) {
        if let Some(c) = &self.drops {
            c.set(c.get() + 1);
        }
    }
}

struct PayloadCtor {
    drops: Rc<Cell<u32>>,
}

impl StateConstructor for PayloadCtor {
    type State = Payload;

    fn construct(&self) -> Payload {
        Payload { value: Payload::default().value, drops: Some(self.drops.clone()) }
    }
}

struct PayloadMethods;

impl Handler for PayloadMethods {
    type State = Payload;

    fn execute(
        &mut self,
        this: &mut StateObject<Payload>,
        _args: &mut Vec<Val>,
    ) -> Result<Val, PhpException> {
        let state = this.state_mut();
        state.value = state.value + 1;
        Ok(Val::Long(state.value))
    }
}

#[test]
fn property_default_readable_without_any_method_call() {
    let mut table = ClassTable::new();
    let mut entity: ClassEntity<UnitStateConstructor, NoMethods> =
        ClassEntity::new_with_state_constructor("Test1".to_string(), UnitStateConstructor);
    entity.add_property("foo".to_string(), Visibility::Public, Scalar::I64(100));
    let handle = entity.register(&mut table).unwrap();
    let obj = handle.init_object(&table);
    assert!(matches!(obj.get_property("foo"), Some(Val::Long(100))));
    assert!(obj.get_property("bar").is_none());
}

#[test]
fn state_constructor_runs_once_and_payload_drops_once() {
    let drops = Rc::new(Cell::new(0u32));
    let mut table = ClassTable::new();
    let mut entity: ClassEntity<PayloadCtor, PayloadMethods> =
        ClassEntity::new_with_state_constructor(
            "Counter".to_string(),
            PayloadCtor { drops: drops.clone() },
        );
    entity.add_method(
        "inc".to_string(),
        Visibility::Public,
        PayloadMethods,
        vec![],
    );
    let mut handle = entity.register(&mut table).unwrap();

    let mut obj = handle.init_object(&table);
    assert_eq!(obj.state().value, Payload::default().value);
    assert_eq!(drops.get(), 0);

    let r = handle.call_method(&mut obj, "inc", vec![]).unwrap();
    assert!(matches!(r, Val::Long(1)));
    assert_eq!(obj.state().value, 1);

    drop(obj);
    assert_eq!(drops.get(), 1);
}

#[test]
fn method_dispatch_errors() {
    let drops = Rc::new(Cell::new(0u32));
    let mut table = ClassTable::new();
    let mut entity: ClassEntity<PayloadCtor, PayloadMethods> =
        ClassEntity::new_with_state_constructor(
            "Errs".to_string(),
            PayloadCtor { drops: drops.clone() },
        );
    entity.add_method(
        "needs_two".to_string(),
        Visibility::Public,
        PayloadMethods,
        vec![
            Argument::by_val("a".to_string()),
            Argument::by_val("b".to_string()),
        ],
    );
    entity.add_abstract_method("virt".to_string(), Visibility::Public, vec![]);
    let mut handle = entity.register(&mut table).unwrap();
    let mut obj = handle.init_object(&table);

    let e = handle.call_method(&mut obj, "missing", vec![]).unwrap_err();
    assert_eq!(e.message().as_str(), "Call to undefined method missing()");

    let e = handle.call_method(&mut obj, "virt", vec![]).unwrap_err();
    assert_eq!(e.message().as_str(), "Cannot call abstract method virt()");

    let e = handle
        .call_method(&mut obj, "needs_two", vec![Val::Long(1)])
        .unwrap_err();
    assert_eq!(
        e.message().as_str(),
        "Too few arguments to function needs_two(), 1 passed and at least 2 expected"
    );
    assert_eq!(obj.state().value, 0);
}

struct InitCtor;

impl StateConstructor for InitCtor {
    type State = i64;

    fn construct(&self) -> i64 {
        41
    }
}

struct InitMethods;

impl Handler for InitMethods {
    type State = i64;

    fn execute(
        &mut self,
        this: &mut StateObject<i64>,
        _args: &mut Vec<Val>,
    ) -> Result<Val, PhpException> {
        this.set_property("ready".to_string().as_str(), Val::Bool(true));
        let s = this.state_mut();
        *s = *s + 1;
        Ok(Val::Null)
    }
}

#[test]
fn new_object_runs_the_declared_constructor() {
    let mut table = ClassTable::new();
    let mut entity: ClassEntity<InitCtor, InitMethods> =
        ClassEntity::new_with_state_constructor("WithCtor".to_string(), InitCtor);
    entity.add_method(
        "__construct".to_string(),
        Visibility::Public,
        InitMethods,
        vec![],
    );
    let mut handle = entity.register(&mut table).unwrap();
    let obj = handle.new_object(&table, vec![]).unwrap();
    assert_eq!(*obj.state(), 42);
    assert!(matches!(obj.get_property("ready"), Some(Val::Bool(true))));
}

#[test]
fn new_object_without_declared_constructor() {
    let mut table = ClassTable::new();
    let entity: ClassEntity<InitCtor, InitMethods> =
        ClassEntity::new_with_state_constructor("Bare".to_string(), InitCtor);
    let mut handle = entity.register(&mut table).unwrap();
    let obj = handle.new_object(&table, vec![]).unwrap();
    assert_eq!(*obj.state(), 41);
}

#[test]
fn duplicate_class_name_aborts_registration() {
    let mut table = ClassTable::new();
    let first: ClassEntity<UnitStateConstructor, NoMethods> =
        ClassEntity::new_with_state_constructor("Twice".to_string(), UnitStateConstructor);
    first.register(&mut table).unwrap();
    let second: ClassEntity<UnitStateConstructor, NoMethods> =
        ClassEntity::new_with_state_constructor("Twice".to_string(), UnitStateConstructor);
    match second.register(&mut table) {
        Err(e) => assert_eq!(e.name().as_str(), "Twice"),
        Ok(_) => panic!("expected the duplicate name to be refused"),
    }
}

#[test]
fn class_table_lookup_and_statics() {
    let mut table = ClassTable::new();
    let mut entity: ClassEntity<UnitStateConstructor, NoMethods> =
        ClassEntity::new_with_state_constructor("Lookup".to_string(), UnitStateConstructor);
    entity.add_static_property("count".to_string(), Visibility::Public, Scalar::I64(7));
    entity.add_property("plain".to_string(), Visibility::Private, Scalar::String(
        "d".to_string(),
    ));
    entity.register(&mut table).unwrap();

    let found = table.from_globals("Lookup").unwrap();
    assert_eq!(found.get_name().as_str(), "Lookup");
    assert!(matches!(found.get_static_property("count"), Some(Val::Long(7))));
    assert!(found.get_static_property("plain").is_none());

    let missing = table.from_globals("Nope").unwrap_err();
    assert_eq!(missing.class_name().as_str(), "Nope");
}

#[test]
fn parent_resolves_against_earlier_registration() {
    let mut table = ClassTable::new();
    let base: ClassEntity<UnitStateConstructor, NoMethods> =
        ClassEntity::new_with_state_constructor("Base".to_string(), UnitStateConstructor);
    base.register(&mut table).unwrap();

    let mut child: ClassEntity<UnitStateConstructor, NoMethods> =
        ClassEntity::new_with_state_constructor("Child".to_string(), UnitStateConstructor);
    child.extends("Base".to_string());
    child.implements("Countable".to_string());
    child.register(&mut table).unwrap();

    let entry = table.from_globals("Child").unwrap();
    assert_eq!(entry.get_name().as_str(), "Child");

    // A class entry instantiated directly takes its property defaults.
    let o = table.from_globals("Base").unwrap().new_object();
    assert_eq!(o.class_id(), 0);
}

#[test]
fn plain_object_properties_are_writable() {
    let mut table = ClassTable::new();
    let mut entity: ClassEntity<UnitStateConstructor, NoMethods> =
        ClassEntity::new_with_state_constructor("Bag".to_string(), UnitStateConstructor);
    entity.add_property("x".to_string(), Visibility::Public, Scalar::Null);
    entity.register(&mut table).unwrap();

    let mut o = table.from_globals("Bag").unwrap().init_object();
    assert!(matches!(o.get_property("x"), Some(Val::Null)));
    o.set_property("x", Val::Long(5));
    assert!(matches!(o.get_property("x"), Some(Val::Long(5))));
}

#[test]
fn stateless_class_and_interface_registration() {
    let mut table = ClassTable::new();
    let plain: ClassEntity<UnitStateConstructor, NoMethods> =
        ClassEntity::new("Plain".to_string());
    let handle = plain.register(&mut table).unwrap();
    let obj = handle.init_object(&table);
    assert_eq!(*obj.state(), ());

    let mut iface: InterfaceEntity<NoMethods> = InterfaceEntity::new("Walkable".to_string());
    let m: MethodEntityBuilder<NoMethods> =
        MethodEntityBuilder::new("walk".to_string(), vec![]);
    iface.add_method(m.set_public());
    iface.extends("Traversable".to_string());
    iface.register(&mut table).unwrap();
    assert_eq!(
        table.from_globals("Walkable").unwrap().get_name().as_str(),
        "Walkable"
    );

    let dup: InterfaceEntity<NoMethods> = InterfaceEntity::new("Walkable".to_string());
    match dup.register(&mut table) {
        Err(e) => assert_eq!(e.name().as_str(), "Walkable"),
        Ok(_) => panic!("expected the duplicate name to be refused"),
    }
}

#[test]
fn class_lookup_folds_ascii_case() {
    let mut table = ClassTable::new();
    let mut entity: ClassEntity<UnitStateConstructor, NoMethods> =
        ClassEntity::new("MixedCase".to_string());
    entity.add_property("p".to_string(), Visibility::Public, Scalar::Null);
    entity.register(&mut table).unwrap();

    // The engine keys its class table by lowercased names.
    assert_eq!(table.from_globals("mixedcase").unwrap().get_name().as_str(), "MixedCase");
    assert_eq!(table.from_globals("MIXEDCASE").unwrap().get_name().as_str(), "MixedCase");
    assert!(table.from_globals("mixed_case").is_err());

    // A name differing only in case is the same name to registration.
    let clash: ClassEntity<UnitStateConstructor, NoMethods> =
        ClassEntity::new("MIXEDcase".to_string());
    match clash.register(&mut table) {
        Err(e) => assert_eq!(e.name().as_str(), "MIXEDcase"),
        Ok(_) => panic!("expected the case-folded duplicate to be refused"),
    }
}

#[test]
fn duplicate_method_name_aborts_registration() {
    let mut table = ClassTable::new();
    let mut entity: ClassEntity<InitCtor, InitMethods> =
        ClassEntity::new_with_state_constructor("TwoSame".to_string(), InitCtor);
    entity.add_method("go".to_string(), Visibility::Public, InitMethods, vec![]);
    entity.add_method("go".to_string(), Visibility::Public, InitMethods, vec![]);
    match entity.register(&mut table) {
        Err(e) => assert_eq!(e.name().as_str(), "go"),
        Ok(_) => panic!("expected the duplicate method name to be refused"),
    }
}

#[test]
fn static_property_write_returns_previous_value() {
    let mut table = ClassTable::new();
    let mut entity: ClassEntity<UnitStateConstructor, NoMethods> =
        ClassEntity::new("Counters".to_string());
    entity.add_static_property("count".to_string(), Visibility::Public, Scalar::I64(7));
    entity.register(&mut table).unwrap();

    let prev = table.set_static_property("Counters", "count", Val::Long(8)).unwrap();
    assert!(matches!(prev, Val::Long(7)));
    assert!(matches!(
        table.from_globals("Counters").unwrap().get_static_property("count"),
        Some(Val::Long(8))
    ));

    // An undeclared static takes no value.
    assert!(table.set_static_property("Counters", "other", Val::Long(1)).is_none());
    // An unknown class takes no value.
    assert!(table.set_static_property("Nowhere", "count", Val::Long(1)).is_none());
}

#[test]
fn registered_entry_reports_parent_and_interfaces() {
    let mut table = ClassTable::new();
    let base: ClassEntity<UnitStateConstructor, NoMethods> =
        ClassEntity::new("Root".to_string());
    base.register(&mut table).unwrap();

    let mut child: ClassEntity<UnitStateConstructor, NoMethods> =
        ClassEntity::new("Leafy".to_string());
    child.extends("Root".to_string());
    child.implements("Countable".to_string());
    child.implements("Stringable".to_string());
    child.register(&mut table).unwrap();

    let entry = table.from_globals("Leafy").unwrap();
    let interfaces = entry.interfaces();
    assert_eq!(interfaces.len(), 2);
    assert_eq!(interfaces[0].as_str(), "Countable");
    assert_eq!(interfaces[1].as_str(), "Stringable");
}
