use dy::{search_start, search_step, As, Owned, SearchStep, Type, Value};

#[test]
fn primitive_round_trip() {
    let n = Value::new_null();
    assert_eq!(n.get_type(), Type::Null);
    assert!(n.as_null().is_some());
    assert!(n.as_bool().is_none());

    let b = Value::new_bool(false);
    assert_eq!(b.as_bool().unwrap().get(), false);
    assert!(b.as_int().is_none());
    assert!(b.as_null().is_none());

    let i = Value::new_int(-42);
    assert_eq!(i.as_int().unwrap().get(), -42);
    assert!(i.as_float().is_none());
    assert!(i.as_str().is_none());
    assert!(i.as_int_arr().is_none());

    let f = Value::new_float(6.3f64.to_bits());
    assert_eq!(f64::from_bits(f.as_float().unwrap().get()), 6.3);
    assert!(f.as_int().is_none());

    let s = Value::new_str("hello");
    assert_eq!(s.as_str().unwrap().get(), "hello");
    assert!(s.as_bytes().is_none());
    assert!(s.as_arr().is_none());
    assert!(s.as_map().is_none());
}

#[test]
fn get_type_of_each_tag() {
    assert_eq!(Value::new_bool_arr(&[true]).get_type(), Type::BoolArr);
    assert_eq!(Value::new_bytes(&[1]).get_type(), Type::Bytes);
    assert_eq!(Value::new_int_arr(&[1]).get_type(), Type::IntArr);
    assert_eq!(Value::new_float_arr(&[0]).get_type(), Type::FloatArr);
    assert_eq!(Value::new_arr(vec![]).get_type(), Type::Arr);
    assert_eq!(Value::new_map(vec![]).get_type(), Type::GenericMap);
    assert_eq!(Value::new_float(0).get_type(), Type::Float);
}

#[test]
fn string_length_counts_bytes() {
    let s = Value::new_str("h\u{e9}llo");
    assert_eq!(s.as_str().unwrap().len(), 6);
    let e = Value::new_str("");
    assert_eq!(e.as_str().unwrap().len(), 0);
    assert_eq!(e.as_str().unwrap().get(), "");
}

#[test]
fn array_round_trip() {
    let arr = Value::new_arr(vec![
        Value::new_int(1),
        Value::new_str("two"),
        Value::new_int_arr(&[3, 3, 3]),
    ]);
    let parts = arr.decompose_arr().unwrap();
    assert_eq!(parts.len(), 3);
    assert_eq!(parts[0].as_int().unwrap().get(), 1);
    assert_eq!(parts[1].as_str().unwrap().get(), "two");
    assert_eq!(parts[2].as_int_arr().unwrap().data(), &[3, 3, 3]);
}

#[test]
fn decompose_refuses_other_tags() {
    let v = Value::new_int(7);
    let back = v.decompose_arr().unwrap_err();
    assert_eq!(back.as_int().unwrap().get(), 7);
    let back = back.decompose_map().unwrap_err();
    assert_eq!(back.as_int().unwrap().get(), 7);
    let m = Value::new_map(vec![("k", Value::new_null())]);
    let back = m.decompose_arr().unwrap_err();
    assert_eq!(back.as_map().unwrap().size(), 1);
}

#[test]
fn map_round_trip() {
    let map = Value::new_map(vec![
        ("foo", Value::new_int_arr(&[2, 5, 4, 8, 1])),
        ("bar", Value::new_str("hello")),
        ("baz", Value::new_int(15)),
    ]);
    let mut parts = map.decompose_map().unwrap();
    assert_eq!(parts.len(), 3);
    parts.sort_by(|a, b| a.0.cmp(&b.0));
    assert_eq!(parts[0].0, "bar");
    assert_eq!(parts[0].1.as_str().unwrap().get(), "hello");
    assert_eq!(parts[1].0, "baz");
    assert_eq!(parts[1].1.as_int().unwrap().get(), 15);
    assert_eq!(parts[2].0, "foo");
    assert_eq!(parts[2].1.as_int_arr().unwrap().data(), &[2, 5, 4, 8, 1]);
}

#[test]
fn map_duplicate_key_last_wins() {
    let map = Value::new_map(vec![
        ("a", Value::new_int(1)),
        ("b", Value::new_int(2)),
        ("a", Value::new_int(3)),
    ]);
    let m = map.as_map().unwrap();
    assert_eq!(m.size(), 2);
    let p = m.at("a").unwrap();
    assert_eq!(p.get_key(), "a");
    assert_eq!(p.get_val().as_int().unwrap().get(), 3);
    assert_eq!(m.at("b").unwrap().get_val().as_int().unwrap().get(), 2);
    assert!(m.at("c").is_none());
}

#[test]
fn copy_is_deep_and_independent() {
    let v = Value::new_arr(vec![
        Value::new_str("x"),
        Value::new_map(vec![("k", Value::new_float_arr(&[1, 2]))]),
    ]);
    let c1 = v.copy();
    let c2 = c1.copy();
    drop(v);
    let parts = c1.decompose_arr().unwrap();
    assert_eq!(parts[0].as_str().unwrap().get(), "x");
    drop(parts);
    let a = c2.as_arr().unwrap();
    assert_eq!(a.len(), 2);
    assert_eq!(a.at(0).unwrap().as_str().unwrap().get(), "x");
    let inner = a.at(1).unwrap();
    let m = inner.as_map().unwrap();
    assert_eq!(m.at("k").unwrap().get_val().as_float_arr().unwrap().data(), &[1, 2]);
}

#[test]
fn borrowed_copy_becomes_owned() {
    let v = Value::new_int(9);
    let b = v.borrow();
    let owned: Owned = b.copy();
    drop(v);
    assert_eq!(owned.as_int().unwrap().get(), 9);
}

#[test]
fn empty_array_iterator_yields_nothing() {
    let arr = Value::new_arr(vec![]);
    let a = arr.as_arr().unwrap();
    let mut it = a.iter();
    assert!(it.next().is_none());
    assert!(it.next().is_none());
}

#[test]
fn map_iterator_stays_exhausted() {
    let map = Value::new_map(vec![("only", Value::new_bool(true))]);
    let m = map.as_map().unwrap();
    let mut it = m.iter();
    let p = it.next().unwrap();
    assert_eq!(p.get_key(), "only");
    assert_eq!(p.get_val().as_bool().unwrap().get(), true);
    assert!(it.next().is_none());
    assert!(it.next().is_none());
    assert!(it.next().is_none());
}

#[test]
fn out_of_range_access_is_nothing() {
    let arr = Value::new_arr(vec![Value::new_int(1), Value::new_int(2)]);
    let a = arr.as_arr().unwrap();
    assert!(a.at(1).is_some());
    assert!(a.at(2).is_none());
    assert!(a.at(3).is_none());
    let ints = Value::new_int_arr(&[4, 5, 6]);
    let ia = ints.as_int_arr().unwrap();
    assert_eq!(ia.at(2), Some(6));
    assert_eq!(ia.at(3), None);
    assert_eq!(ia.at(4), None);
    let bools = Value::new_bool_arr(&[]);
    assert_eq!(bools.as_bool_arr().unwrap().at(0), None);
    let bytes = Value::new_bytes(&[9]);
    assert_eq!(bytes.as_bytes().unwrap().at(1), None);
    let floats = Value::new_float_arr(&[1]);
    assert_eq!(floats.as_float_arr().unwrap().at(1), None);
    let map = Value::new_map(vec![("a", Value::new_null())]);
    assert!(map.as_map().unwrap().at("b").is_none());
}

#[test]
fn ptr_round_trip_keeps_value() {
    let v = Value::new_str("handle");
    let p = v.into_ptr();
    let back = Owned::from_ptr(p);
    assert_eq!(back.as_str().unwrap().get(), "handle");
}

#[test]
fn loader_without_paths_is_not_found() {
    assert_eq!(search_start(0), SearchStep::NotFound);
}

#[test]
fn loader_first_existing_path_wins() {
    assert_eq!(search_start(2), SearchStep::Probe(0));
    assert_eq!(search_step(2, 0, true), SearchStep::Load(0));
    assert_eq!(search_step(2, 0, false), SearchStep::Probe(1));
    assert_eq!(search_step(2, 1, true), SearchStep::Load(1));
    assert_eq!(search_step(2, 1, false), SearchStep::NotFound);
}

fn multiply_two_only_numbers(args: &[Value]) -> Owned {
    let mut out = vec![];
    for a in args {
        out.push(match a.as_type() {
            As::Int(i) => Value::new_int(i.get() * 2),
            As::Float(f) => Value::new_float((f64::from_bits(f.get()) * 2.0).to_bits()),
            _ => a.copy(),
        });
    }
    Value::new_arr(out)
}

#[test]
fn doubling_callee_scenario() {
    let args = vec![
        Value::new_int(5),
        Value::new_float(6.3f64.to_bits()),
        Value::new_str("Hello"),
    ];
    let handles: Vec<dy::ValuePtr> = args.into_iter().map(|a| a.into_ptr()).collect();
    let res = multiply_two_only_numbers(&handles);
    let res = res.as_arr().unwrap();
    assert_eq!(res.len(), 3);
    assert_eq!(res.at(0).unwrap().as_int().unwrap().get(), 10);
    assert_eq!(f64::from_bits(res.at(1).unwrap().as_float().unwrap().get()), 12.6);
    assert_eq!(res.at(2).unwrap().as_str().unwrap().get(), "Hello");
}
