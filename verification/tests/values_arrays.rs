use phper::arrays::{InsertKey, Iter, IterKey, Key, ZArray};
use phper::values::{SetVal, Val};

fn str_val(s: &str) -> Val {
    Val::Str(s.to_string())
}

#[test]
fn long_round_trip_full_range() {
    for n in [i64::MIN, i64::MIN + 1, -1, 0, 1, i64::MAX - 1, i64::MAX] {
        let mut v = Val::new();
        n.set_val(&mut v);
        assert_eq!(v.as_i64().unwrap(), n);
    }
}

#[test]
fn fresh_cell_reads_null() {
    let v = Val::new();
    assert!(matches!(v, Val::Null));
    let v = Val::null();
    assert!(matches!(v, Val::Null));
}

#[test]
fn typed_accessors_check_the_tag() {
    let v = Val::Bool(true);
    assert_eq!(v.as_bool().unwrap(), true);
    let e = v.as_i64().unwrap_err();
    assert_eq!(e.expected().as_str(), "int");
    assert_eq!(e.actual().as_str(), "bool");
    let s = str_val("abc");
    assert_eq!(s.as_str().unwrap().as_str(), "abc");
    assert!(s.as_bool().is_err());
    assert!(Val::Long(1).as_arr().is_err());
}

#[test]
fn convert_to_string_is_destructive_and_scalar_only() {
    let mut v = Val::Long(42);
    assert_eq!(v.as_string().unwrap().as_str(), "42");
    assert!(matches!(&v, Val::Str(s) if s == "42"));

    let mut v = Val::Long(-7);
    assert_eq!(v.as_string().unwrap().as_str(), "-7");

    let mut v = Val::Long(i64::MIN);
    assert_eq!(v.as_string().unwrap().as_str(), "-9223372036854775808");

    let mut v = Val::Bool(true);
    assert_eq!(v.as_string().unwrap().as_str(), "1");
    let mut v = Val::Bool(false);
    assert_eq!(v.as_string().unwrap().as_str(), "");
    let mut v = Val::Null;
    assert_eq!(v.as_string().unwrap().as_str(), "");

    let mut v = Val::Arr(ZArray::new());
    let e = v.as_string().unwrap_err();
    assert_eq!(e.expected().as_str(), "string");
    assert_eq!(e.actual().as_str(), "array");
    assert!(matches!(v, Val::Arr(_)));
}

#[test]
fn insert_then_get_returns_the_value() {
    let mut arr = ZArray::new();
    arr.insert(InsertKey::Str("k".to_string()), str_val("payload"));
    let got = arr.get(&Key::Str("k".to_string())).unwrap();
    assert!(matches!(got, Val::Str(s) if s == "payload"));
    arr.insert(InsertKey::Index(9), Val::Long(1));
    assert!(matches!(arr.get(&Key::Index(9)), Some(Val::Long(1))));
}

#[test]
fn remove_then_get_is_absent() {
    let mut arr = ZArray::new();
    arr.insert(InsertKey::Str("k".to_string()), Val::Long(5));
    assert!(arr.remove(&Key::Str("k".to_string())));
    assert!(arr.get(&Key::Str("k".to_string())).is_none());
    assert!(!arr.remove(&Key::Str("k".to_string())));
}

#[test]
fn overwrite_keeps_first_position_and_last_value() {
    let mut arr = ZArray::new();
    arr.insert(InsertKey::Str("a".to_string()), Val::Long(1));
    arr.insert(InsertKey::Str("b".to_string()), Val::Long(2));
    arr.insert(InsertKey::Str("a".to_string()), Val::Long(3));

    assert_eq!(arr.len(), 2);
    let mut it: Iter = arr.iter();
    let (k0, v0) = it.next(&arr).unwrap();
    assert!(matches!(k0, IterKey::Str(s) if s == "a"));
    assert!(matches!(v0, Val::Long(3)));
    let (k1, v1) = it.next(&arr).unwrap();
    assert!(matches!(k1, IterKey::Str(s) if s == "b"));
    assert!(matches!(v1, Val::Long(2)));
    assert!(it.next(&arr).is_none());
}

#[test]
fn next_index_is_monotonic() {
    let mut arr = ZArray::new();
    arr.insert(InsertKey::NextIndex, Val::Long(10));
    arr.insert(InsertKey::NextIndex, Val::Long(11));
    assert!(matches!(arr.get(&Key::Index(0)), Some(Val::Long(10))));
    assert!(matches!(arr.get(&Key::Index(1)), Some(Val::Long(11))));

    arr.insert(InsertKey::Index(7), Val::Long(12));
    arr.insert(InsertKey::NextIndex, Val::Long(13));
    assert!(matches!(arr.get(&Key::Index(8)), Some(Val::Long(13))));
}

#[test]
fn next_index_never_reuses_a_removed_slot() {
    let mut arr = ZArray::new();
    arr.insert(InsertKey::NextIndex, Val::Long(0));
    arr.insert(InsertKey::NextIndex, Val::Long(1));
    assert!(arr.remove(&Key::Index(0)));
    assert!(arr.remove(&Key::Index(1)));
    // The counter is per instance and monotonic: earlier indices stay used.
    arr.insert(InsertKey::NextIndex, Val::Long(2));
    assert!(arr.get(&Key::Index(0)).is_none());
    assert!(arr.get(&Key::Index(1)).is_none());
    assert!(matches!(arr.get(&Key::Index(2)), Some(Val::Long(2))));
}

#[test]
fn clone_shares_nothing() {
    let mut original = ZArray::new();
    original.insert(InsertKey::Str("entry".to_string()), str_val("before"));
    let mut copy = original.clone();
    copy.insert(InsertKey::Str("entry".to_string()), str_val("after"));

    let kept = original.get(&Key::Str("entry".to_string())).unwrap();
    assert!(matches!(kept, Val::Str(s) if s == "before"));
    let changed = copy.get(&Key::Str("entry".to_string())).unwrap();
    assert!(matches!(changed, Val::Str(s) if s == "after"));
}

#[test]
fn nested_array_values_clone_deeply() {
    let mut inner = ZArray::new();
    inner.insert(InsertKey::Str("x".to_string()), Val::Long(1));
    let mut outer = ZArray::new();
    outer.insert(InsertKey::Str("in".to_string()), Val::Arr(inner));

    let copy = outer.clone();
    let v = copy.get(&Key::Str("in".to_string())).unwrap();
    let a = v.as_arr().unwrap();
    assert!(matches!(a.get(&Key::Str("x".to_string())), Some(Val::Long(1))));
}

#[test]
fn entry_and_or_insert() {
    let mut arr = ZArray::new();
    arr.or_insert(Key::Str("n".to_string()), Val::Long(1));
    arr.or_insert(Key::Str("n".to_string()), Val::Long(99));
    assert!(matches!(arr.get(&Key::Str("n".to_string())), Some(Val::Long(1))));
    // The occupied slot mutates in place through the handle.
    {
        let slot = arr.or_insert(Key::Str("n".to_string()), Val::Long(0));
        *slot = Val::Long(5);
    }
    assert!(matches!(arr.get(&Key::Str("n".to_string())), Some(Val::Long(5))));
    // A vacant or_insert yields the freshly stored slot.
    {
        let slot = arr.or_insert(Key::Str("m".to_string()), Val::Long(7));
        assert!(matches!(slot, Val::Long(7)));
    }
    // Position-based in-place mutation through the entry view.
    match arr.entry(&Key::Str("m".to_string())) {
        phper::arrays::Entry::Occupied(o) => {
            let slot = arr.value_at_mut(o.pos);
            *slot = Val::Str("swapped".to_string());
        },
        phper::arrays::Entry::Vacant => panic!("expected the key to be present"),
    }
    assert!(matches!(arr.get(&Key::Str("m".to_string())), Some(Val::Str(s)) if s == "swapped"));
    assert!(matches!(
        arr.entry(&Key::Str("n".to_string())),
        phper::arrays::Entry::Occupied(o) if o.pos == 0
    ));
    assert!(matches!(
        arr.entry(&Key::Str("missing".to_string())),
        phper::arrays::Entry::Vacant
    ));
    assert!(arr.key_exists(&Key::Str("n".to_string())));
    assert!(!arr.is_empty());
    assert_eq!(ZArray::with_capacity(16).len(), 0);
}

#[test]
fn set_val_writes_each_native_type() {
    let mut v = Val::new();
    ().set_val(&mut v);
    assert!(matches!(v, Val::Null));
    7i32.set_val(&mut v);
    assert!(matches!(v, Val::Long(7)));
    8u32.set_val(&mut v);
    assert!(matches!(v, Val::Long(8)));
    "s".set_val(&mut v);
    assert!(matches!(&v, Val::Str(s) if s == "s"));
    String::from("t").set_val(&mut v);
    assert!(matches!(&v, Val::Str(s) if s == "t"));
    Some(3i64).set_val(&mut v);
    assert!(matches!(v, Val::Long(3)));
    Option::<i64>::None.set_val(&mut v);
    assert!(matches!(v, Val::Null));
    ZArray::new().set_val(&mut v);
    assert!(matches!(v, Val::Arr(_)));
    let cloned = v.clone();
    assert!(matches!(cloned, Val::Arr(_)));
    assert_eq!(v.tag_name(), "array");
    assert_eq!(Val::Res(3).tag_name(), "resource");
    assert_eq!(Val::Obj(3).tag_name(), "object");
}
