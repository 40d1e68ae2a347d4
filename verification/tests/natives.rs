use xvm::cells::{SharedCells, ValueCell};
use xvm::environment::{Context, Environment, NativeFunction, NativeKind};
use xvm::errors::EnvironmentError;
use xvm::natives::{dispatch_native, register};
use xvm::path::Path;
use xvm::types::Type;
use xvm::values::Value;

fn string_cell(s: &str) -> ValueCell {
    ValueCell::Default(Value::String(String::from(s)))
}

fn string_path(s: &str) -> Path {
    Path::Owned(string_cell(s))
}

fn u32_path(n: u32) -> Path {
    Path::Owned(ValueCell::Default(Value::U32(n)))
}

fn call(
    kind: NativeKind,
    instance: Option<&ValueCell>,
    params: Vec<Path>,
) -> Result<Option<ValueCell>, EnvironmentError> {
    let cells = SharedCells::new();
    dispatch_native(kind, instance, &params, &cells)
}

fn expect_string(r: Result<Option<ValueCell>, EnvironmentError>) -> String {
    match r.unwrap().unwrap() {
        ValueCell::Default(Value::String(s)) => s,
        other => panic!("expected a string, got {:?}", other),
    }
}

fn expect_bool(r: Result<Option<ValueCell>, EnvironmentError>) -> bool {
    match r.unwrap().unwrap() {
        ValueCell::Default(Value::Boolean(b)) => b,
        other => panic!("expected a boolean, got {:?}", other),
    }
}

fn expect_optional_string(r: Result<Option<ValueCell>, EnvironmentError>) -> Option<String> {
    match r.unwrap().unwrap() {
        ValueCell::Optional(None) => None,
        ValueCell::Optional(Some(p)) => {
            let cells = SharedCells::new();
            match p.into_value(&cells).unwrap() {
                ValueCell::Default(Value::String(s)) => Some(s),
                other => panic!("expected a string inside, got {:?}", other),
            }
        }
        other => panic!("expected an optional, got {:?}", other),
    }
}

#[test]
fn string_len_counts_characters() {
    let inst = string_cell("abcd");
    match call(NativeKind::StringLen, Some(&inst), Vec::new()).unwrap().unwrap() {
        ValueCell::Default(Value::U32(n)) => assert_eq!(n, 4),
        other => panic!("expected a number, got {:?}", other),
    }
}

#[test]
fn string_case_folding_and_trim() {
    let inst = string_cell("  MiXeD  ");
    let trimmed = expect_string(call(NativeKind::StringTrim, Some(&inst), Vec::new()));
    assert_eq!(trimmed, "MiXeD");
    let inst2 = string_cell("MiXeD");
    assert_eq!(
        expect_string(call(NativeKind::StringToLowercase, Some(&inst2), Vec::new())),
        "mixed"
    );
    assert_eq!(
        expect_string(call(NativeKind::StringToUppercase, Some(&inst2), Vec::new())),
        "MIXED"
    );
}

#[test]
fn string_search_family() {
    let inst = string_cell("hello world");
    assert!(expect_bool(call(
        NativeKind::StringContains,
        Some(&inst),
        vec![string_path("o w")]
    )));
    assert!(!expect_bool(call(
        NativeKind::StringContains,
        Some(&inst),
        vec![string_path("xyz")]
    )));
    assert!(expect_bool(call(
        NativeKind::StringContainsIgnoreCase,
        Some(&inst),
        vec![string_path("HELLO")]
    )));
    assert!(expect_bool(call(
        NativeKind::StringStartsWith,
        Some(&inst),
        vec![string_path("hell")]
    )));
    assert!(expect_bool(call(
        NativeKind::StringEndsWith,
        Some(&inst),
        vec![string_path("rld")]
    )));
    assert!(!expect_bool(call(
        NativeKind::StringIsEmpty,
        Some(&inst),
        Vec::new()
    )));
    match call(NativeKind::StringIndexOf, Some(&inst), vec![string_path("o")])
        .unwrap()
        .unwrap()
    {
        ValueCell::Optional(Some(p)) => {
            let cells = SharedCells::new();
            match p.into_value(&cells).unwrap() {
                ValueCell::Default(Value::U32(n)) => assert_eq!(n, 4),
                other => panic!("expected a number inside, got {:?}", other),
            }
        }
        other => panic!("expected an optional, got {:?}", other),
    }
    match call(
        NativeKind::StringLastIndexOf,
        Some(&inst),
        vec![string_path("o")],
    )
    .unwrap()
    .unwrap()
    {
        ValueCell::Optional(Some(p)) => {
            let cells = SharedCells::new();
            match p.into_value(&cells).unwrap() {
                ValueCell::Default(Value::U32(n)) => assert_eq!(n, 7),
                other => panic!("expected a number inside, got {:?}", other),
            }
        }
        other => panic!("expected an optional, got {:?}", other),
    }
}

#[test]
fn string_replace_split_and_bytes() {
    let inst = string_cell("a,b,c");
    assert_eq!(
        expect_string(call(
            NativeKind::StringReplace,
            Some(&inst),
            vec![string_path(","), string_path("-")]
        )),
        "a-b-c"
    );
    match call(NativeKind::StringSplit, Some(&inst), vec![string_path(",")])
        .unwrap()
        .unwrap()
    {
        ValueCell::Array(parts) => {
            assert_eq!(parts.len(), 3);
            let cells = SharedCells::new();
            let first = parts.into_iter().next().unwrap();
            match first.into_value(&cells).unwrap() {
                ValueCell::Default(Value::String(s)) => assert_eq!(s, "a"),
                other => panic!("expected a string piece, got {:?}", other),
            }
        }
        other => panic!("expected an array, got {:?}", other),
    }
    let short = string_cell("hi");
    match call(NativeKind::StringToBytes, Some(&short), Vec::new())
        .unwrap()
        .unwrap()
    {
        ValueCell::Array(bytes) => {
            let cells = SharedCells::new();
            let vals: Vec<u8> = bytes
                .into_iter()
                .map(|p| match p.into_value(&cells).unwrap() {
                    ValueCell::Default(Value::U8(b)) => b,
                    other => panic!("expected a byte, got {:?}", other),
                })
                .collect();
            assert_eq!(vals, vec![104, 105]);
        }
        other => panic!("expected an array, got {:?}", other),
    }
}

#[test]
fn string_substrings_and_char_at() {
    let inst = string_cell("substring");
    assert_eq!(
        expect_optional_string(call(
            NativeKind::StringSubstring,
            Some(&inst),
            vec![u32_path(3)]
        )),
        Some(String::from("string"))
    );
    assert_eq!(
        expect_optional_string(call(
            NativeKind::StringSubstring,
            Some(&inst),
            vec![u32_path(100)]
        )),
        None
    );
    assert_eq!(
        expect_optional_string(call(
            NativeKind::StringSubstringRange,
            Some(&inst),
            vec![u32_path(0), u32_path(3)]
        )),
        Some(String::from("sub"))
    );
    assert_eq!(
        expect_optional_string(call(
            NativeKind::StringCharAt,
            Some(&inst),
            vec![u32_path(1)]
        )),
        Some(String::from("u"))
    );
    assert_eq!(
        expect_optional_string(call(
            NativeKind::StringCharAt,
            Some(&inst),
            vec![u32_path(99)]
        )),
        None
    );
}

#[test]
fn string_matches_lists_occurrences() {
    let inst = string_cell("abcabc");
    match call(NativeKind::StringMatches, Some(&inst), vec![string_path("abc")])
        .unwrap()
        .unwrap()
    {
        ValueCell::Array(parts) => assert_eq!(parts.len(), 2),
        other => panic!("expected an array, got {:?}", other),
    }
}

#[test]
fn natives_reject_bad_shapes() {
    assert!(matches!(
        call(NativeKind::StringLen, None, Vec::new()),
        Err(EnvironmentError::FnExpectedInstance)
    ));
    let wrong = ValueCell::Default(Value::U8(1));
    assert!(matches!(
        call(NativeKind::StringLen, Some(&wrong), Vec::new()),
        Err(EnvironmentError::ValueError(
            xvm::errors::ValueError::InvalidValueType
        ))
    ));
}

#[test]
fn call_function_checks_shape_and_charges() {
    let mut env = Environment::new();
    register(&mut env);
    let cells = SharedCells::new();
    let mut context = Context::new(100);
    let f = env.get_function_by_id(0).unwrap();
    // Wrong arity: one argument where none is declared.
    let inst_x = string_cell("x");
    assert!(matches!(
        f.call_function(Some(&inst_x), &vec![string_path("y")], &mut context, &cells),
        Err(EnvironmentError::InvalidFnCall)
    ));
    assert_eq!(context.gas_used(), 0);
    // Missing receiver.
    assert!(matches!(
        f.call_function(None, &Vec::new(), &mut context, &cells),
        Err(EnvironmentError::InvalidFnCall)
    ));
    // A well-shaped call charges the declared cost.
    let inst = string_cell("four");
    let out = f
        .call_function(Some(&inst), &Vec::new(), &mut context, &cells)
        .unwrap();
    assert!(out.is_some());
    assert_eq!(context.gas_used(), 1);
}

#[test]
fn repricing_changes_the_charge() {
    let mut env = Environment::new();
    register(&mut env);
    env.set_cost_for_function_at_index(0, 7);
    let cells = SharedCells::new();
    let mut context = Context::new(100);
    let inst = string_cell("four");
    let f = env.get_function_by_id(0).unwrap();
    f.call_function(Some(&inst), &Vec::new(), &mut context, &cells)
        .unwrap();
    assert_eq!(context.gas_used(), 7);
}

#[test]
fn native_function_records_describe_themselves() {
    let f = NativeFunction::new(
        Some(Type::String),
        vec![Type::U32],
        NativeKind::StringCharAt,
        3,
        Some(Type::Optional(Box::new(Type::String))),
    );
    assert_eq!(f.get_parameters().len(), 1);
    assert_eq!(f.cost(), 3);
    assert_eq!(f.kind(), NativeKind::StringCharAt);
    assert!(f.has_receiver());
    assert_eq!(
        f.return_type(),
        &Some(Type::Optional(Box::new(Type::String)))
    );
}
