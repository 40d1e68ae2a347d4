use xvm::cells::{SharedCells, ValueCell, ValuePointer};
use xvm::errors::ValueError;
use xvm::iterator::PathIterator;
use xvm::path::Path;
use xvm::types::Type;
use xvm::u256::U256;
use xvm::value_type::{cells_equal, map_get, map_insert, ValueType};
use xvm::values::Value;

#[test]
fn test_macro_owned() {
    let cells = SharedCells::new();
    let path = Path::Owned(ValueCell::Default(Value::Null));
    let value = path.read(&cells).unwrap();
    assert!(matches!(value, ValueCell::Default(Value::Null)));
}

#[test]
fn test_macro_mut_owned() {
    let mut cells = SharedCells::new();
    let mut path = Path::Owned(ValueCell::Default(Value::Null));
    path.assign(ValueCell::Default(Value::Boolean(true)), &mut cells)
        .unwrap();
    let value = path.into_owned(&cells);
    assert!(matches!(value, ValueCell::Default(Value::Boolean(true))));
}

#[test]
fn cast_to_same_width_is_identity() {
    assert_eq!(Value::U8(200).cast_to_u8(), Ok(200));
    assert_eq!(Value::U32(7).checked_cast_to_u32(), Ok(7));
    assert_eq!(Value::U64(u64::MAX).cast_to_u64(), Ok(u64::MAX));
}

#[test]
fn lossy_cast_truncates() {
    assert_eq!(Value::U32(300).cast_to_u8(), Ok(44));
    assert_eq!(Value::U64(65536 + 5).cast_to_u16(), Ok(5));
}

#[test]
fn checked_cast_rejects_too_big() {
    assert_eq!(
        Value::U32(300).checked_cast_to_u8(),
        Err(ValueError::CastOverflow)
    );
    assert_eq!(Value::U32(255).checked_cast_to_u8(), Ok(255));
}

#[test]
fn cast_from_bool_counts_as_one() {
    assert_eq!(Value::Boolean(true).cast_to_u8(), Ok(1));
    assert_eq!(Value::Boolean(false).checked_cast_to_u64(), Ok(0));
}

#[test]
fn cast_to_string_renders_decimal() {
    assert_eq!(Value::U8(0).cast_to_string(), Ok(String::from("0")));
    assert_eq!(Value::U32(1024).cast_to_string(), Ok(String::from("1024")));
    assert_eq!(
        Value::U64(u64::MAX).cast_to_string(),
        Ok(String::from("18446744073709551615"))
    );
    assert_eq!(Value::Null.cast_to_string(), Ok(String::from("null")));
    assert_eq!(
        Value::Boolean(true).cast_to_string(),
        Ok(String::from("true"))
    );
}

#[test]
fn u256_decimal_and_order() {
    let big = U256 {
        w0: u64::MAX,
        w1: u64::MAX,
        w2: u64::MAX,
        w3: u64::MAX,
    };
    assert_eq!(
        Value::U256(big).cast_to_string(),
        Ok(String::from(
            "115792089237316195423570985008687907853269984665640564039457584007913129639935"
        ))
    );
    let two = U256::from_u64(2);
    let three = U256::from_u64(3);
    assert!(two.lt(&three));
    assert!(!three.lt(&two));
    assert_eq!(three.increment().unwrap().to_u64(), Some(4));
    assert!(big.increment().is_none());
}

#[test]
fn increment_and_decrement_are_checked() {
    let mut v = Value::U8(254);
    assert!(v.increment().is_ok());
    assert!(matches!(v, Value::U8(255)));
    assert_eq!(v.increment(), Err(ValueError::IntegerOverflow));
    let mut w = Value::U16(0);
    assert_eq!(w.decrement(), Err(ValueError::IntegerOverflow));
    assert_eq!(
        Value::String(String::from("x")).clone().increment(),
        Err(ValueError::OperationNotNumberType)
    );
}

#[test]
fn type_relations() {
    let a = Type::Array(Box::new(Type::U8));
    assert!(a.is_compatible_with(&a));
    assert!(Type::U8.is_compatible_with(&Type::Any));
    assert!(!Type::U8.is_compatible_with(&Type::U16));
    assert!(Type::U8.is_castable_to(&Type::U16));
    assert!(Type::U16.is_castable_to(&Type::U8));
    assert!(!Type::U8.is_castable_to(&Type::U8));
    assert!(Type::U8.is_castable_to_no_loss(&Type::U16));
    assert!(!Type::U16.is_castable_to_no_loss(&Type::U8));
    assert_eq!(Type::primitive_type_from_byte(3), Some(Type::U64));
    assert_eq!(Type::primitive_type_from_byte(8), None);
    assert_eq!(Type::U64.primitive_byte(), Some(3));
}

#[test]
fn plain_map_insert_keeps_order_and_replaces() {
    let mut entries: Vec<(ValueType, ValueType)> = Vec::new();
    let key_a = ValueType::Default(Value::String(String::from("a")));
    let key_b = ValueType::Default(Value::String(String::from("b")));
    map_insert(&mut entries, key_a.clone(), ValueType::Default(Value::U32(1)));
    map_insert(&mut entries, key_b.clone(), ValueType::Default(Value::U32(2)));
    map_insert(&mut entries, key_a.clone(), ValueType::Default(Value::U32(9)));
    assert_eq!(entries.len(), 2);
    assert!(cells_equal(&entries[0].0, &key_a));
    assert!(cells_equal(&entries[1].0, &key_b));
    let got = map_get(&entries, &key_a).unwrap();
    assert!(cells_equal(got, &ValueType::Default(Value::U32(9))));
    assert!(map_get(&entries, &ValueType::Default(Value::U32(0))).is_none());
}

#[test]
fn plain_round_trip_through_cells() {
    let samples = vec![
        ValueType::Default(Value::Null),
        ValueType::Default(Value::U8(7)),
        ValueType::Default(Value::U128(1 << 100)),
        ValueType::Default(Value::String(String::from("hello"))),
        ValueType::Array(vec![
            ValueType::Default(Value::U8(1)),
            ValueType::Default(Value::U8(2)),
        ]),
        ValueType::Optional(Some(Box::new(ValueType::Default(Value::Boolean(true))))),
    ];
    for v in samples {
        let cell = v.to_cell();
        let back = cell.to_plain().unwrap();
        assert!(cells_equal(&v, &back));
    }
}

#[test]
fn dismantle_handles_cycles() {
    let mut cells = SharedCells::new();
    let slot = cells.store(ValueCell::Default(Value::Null));
    cells.put(
        slot,
        ValueCell::Array(vec![ValuePointer::shared(slot), ValuePointer::shared(slot)]),
    );
    xvm::cells::dismantle(ValuePointer::shared(slot), &mut cells);
    assert_eq!(cells.len(), 1);
    assert!(!cells.is_live(slot));
}

#[test]
fn weak_value_dies_with_its_cell() {
    let mut cells = SharedCells::new();
    let slot = cells.store(ValueCell::Default(Value::U8(3)));
    let weak = xvm::cells::WeakValue::new(slot);
    assert!(weak.upgrade(&cells).is_some());
    xvm::cells::dismantle(ValuePointer::shared(slot), &mut cells);
    assert!(weak.upgrade(&cells).is_none());
    let mut path = Path::Wrapper(weak);
    assert_eq!(
        path.assign(ValueCell::Default(Value::Null), &mut cells),
        Err(ValueError::WeakValue)
    );
}

#[test]
fn sub_variable_aliases_the_parent() {
    let mut cells = SharedCells::new();
    let parent = Path::Owned(ValueCell::Array(vec![
        ValuePointer::owned(ValueCell::Default(Value::U8(1))),
        ValuePointer::owned(ValueCell::Default(Value::U8(2))),
    ]));
    let mut sub = parent.get_sub_variable(1, &mut cells).unwrap();
    sub.assign(ValueCell::Default(Value::U8(9)), &mut cells)
        .unwrap();
    let read = sub.read(&cells).unwrap();
    assert!(matches!(read, ValueCell::Default(Value::U8(9))));
}

#[test]
fn range_iteration_yields_each_integer() {
    let mut cells = SharedCells::new();
    let range = ValueCell::Default(Value::Range(
        Box::new(Value::U32(2)),
        Box::new(Value::U32(5)),
        Type::U32,
    ));
    let mut it = PathIterator::new(ValuePointer::owned(range), &cells).unwrap();
    let mut seen = Vec::new();
    loop {
        match it.next(&mut cells).unwrap() {
            Some(p) => {
                let c = p.into_value(&cells).unwrap();
                match c {
                    ValueCell::Default(Value::U32(n)) => seen.push(n),
                    _ => panic!("range elements are integers"),
                }
            }
            None => break,
        }
    }
    assert_eq!(seen, vec![2, 3, 4]);
}

#[test]
fn array_iteration_yields_in_index_order() {
    let mut cells = SharedCells::new();
    let array = ValueCell::Array(vec![
        ValuePointer::owned(ValueCell::Default(Value::U8(10))),
        ValuePointer::owned(ValueCell::Default(Value::U8(20))),
        ValuePointer::owned(ValueCell::Default(Value::U8(30))),
    ]);
    let mut ptr = ValuePointer::owned(array);
    let shared = ptr.transform(&mut cells);
    let mut it = PathIterator::new(shared, &cells).unwrap();
    let mut seen = Vec::new();
    loop {
        match it.next(&mut cells).unwrap() {
            Some(p) => {
                let c = p.into_value(&cells).unwrap();
                match c {
                    ValueCell::Default(Value::U8(n)) => seen.push(n),
                    _ => panic!("array elements here are bytes"),
                }
            }
            None => break,
        }
    }
    assert_eq!(seen, vec![10, 20, 30]);
}

#[test]
fn value_type_accessors() {
    let v = ValueType::Default(Value::U64(9));
    assert_eq!(v.as_u64(), Ok(9));
    assert_eq!(v.as_u8(), Err(ValueError::InvalidValueType));
    assert!(ValueType::Mapping(Vec::new()).is_map());
    assert!(ValueType::Default(Value::Null).is_null());
    assert!(ValueType::Default(Value::String(String::from("s"))).is_string());
    let mut opt = ValueType::Optional(Some(Box::new(ValueType::Default(Value::U8(1)))));
    assert_eq!(
        opt.take_from_optional(&Type::U8),
        Ok(ValueType::Default(Value::U8(1)))
    );
    assert_eq!(
        opt.take_from_optional(&Type::U8),
        Err(ValueError::OptionalIsNull)
    );
    let arr = ValueType::Array(vec![ValueType::Default(Value::U8(1))]);
    assert_eq!(arr.as_vec().map(|v| v.len()), Ok(1));
    assert_eq!(
        ValueType::Default(Value::U8(1)).as_vec().map(|v| v.len()),
        Err(ValueError::InvalidValueType)
    );
}

#[test]
fn checked_cast_to_primitive_types() {
    let v = ValueType::Default(Value::U8(9));
    let out = v.checked_cast_to_primitive_type(&Type::U64).unwrap();
    assert!(cells_equal(&out, &ValueType::Default(Value::U64(9))));
    let null = ValueType::Default(Value::Null);
    let opt = null
        .checked_cast_to_primitive_type(&Type::Optional(Box::new(Type::U8)))
        .unwrap();
    assert!(matches!(opt, ValueType::Optional(None)));
}
