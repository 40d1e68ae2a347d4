use xvm::environment::Environment;
use xvm::errors::{VMError, ValueError};
use xvm::machine::VM;
use xvm::module::{Chunk, Module};
use xvm::types::{EnumSchema, EnumVariant, StructSchema, Type};
use xvm::value_type::{cells_equal, ValueType};
use xvm::values::Value;

const LOAD_CONST: u8 = 0;
const LOAD_LOCAL: u8 = 1;
const STORE_LOCAL: u8 = 2;
const POP: u8 = 3;
const COPY: u8 = 4;
const SWAP: u8 = 5;
const JUMP_IF_FALSE: u8 = 7;
const CALL: u8 = 8;
const RETURN: u8 = 10;
const NEW_RANGE: u8 = 14;
const NEW_ENUM: u8 = 15;
const SUB_STORE: u8 = 17;
const MAP_SET: u8 = 19;
const ARRAY_LEN: u8 = 20;
const ITER_BEGIN: u8 = 21;
const CAST_TO: u8 = 24;
const SUB: u8 = 26;
const MUL: u8 = 27;
const LT: u8 = 36;
const NEW_ARRAY: u8 = 11;
const NEW_MAP: u8 = 13;
const MAP_GET: u8 = 18;
const SUB_LOAD: u8 = 16;
const NEW_STRUCT: u8 = 12;

fn run(module: &Module, gas: u64) -> Result<ValueType, VMError> {
    let env = Environment::new();
    let mut vm = VM::new(module, &env, gas);
    vm.invoke_entry_chunk(0, Vec::new())
}

fn expect(module: &Module, want: ValueType) {
    let out = run(module, 10000).unwrap();
    assert!(
        cells_equal(&out, &want),
        "got {:?}, wanted {:?}",
        out,
        want
    );
}

#[test]
fn builds_an_enum_value() {
    let module = Module::new(
        vec![ValueType::Default(Value::U8(3))],
        vec![Chunk {
            bytes: vec![LOAD_CONST, 0, 0, NEW_ENUM, 0, 0, 1, COPY, POP, RETURN],
        }],
        Vec::new(),
        vec![EnumSchema {
            variants: vec![
                EnumVariant { fields: Vec::new() },
                EnumVariant {
                    fields: vec![Type::U8],
                },
            ],
        }],
    );
    let out = run(&module, 100).unwrap();
    match out {
        ValueType::Enum(fields, id) => {
            assert_eq!(id.enum_id, 0);
            assert_eq!(id.variant_id, 1);
            assert_eq!(fields.len(), 1);
            assert!(cells_equal(&fields[0], &ValueType::Default(Value::U8(3))));
        }
        other => panic!("expected an enum value, got {:?}", other),
    }
}

#[test]
fn unknown_enum_variant_faults() {
    let module = Module::new(
        Vec::new(),
        vec![Chunk {
            bytes: vec![NEW_ENUM, 0, 0, 9, RETURN],
        }],
        Vec::new(),
        vec![EnumSchema {
            variants: vec![EnumVariant { fields: Vec::new() }],
        }],
    );
    assert_eq!(run(&module, 100), Err(VMError::InvalidEnumVariant));
}

#[test]
fn builds_a_range_and_iterates_nothing_backwards() {
    // start 5, end 2: the range is legal and iterating it yields no
    // elements, so the sum register keeps its starting value.
    let module = Module::new(
        vec![
            ValueType::Default(Value::U32(5)),
            ValueType::Default(Value::U32(2)),
        ],
        vec![Chunk {
            bytes: vec![LOAD_CONST, 0, 0, LOAD_CONST, 1, 0, NEW_RANGE, RETURN],
        }],
        Vec::new(),
        Vec::new(),
    );
    let out = run(&module, 100).unwrap();
    match out {
        ValueType::Default(Value::Range(start, end, t)) => {
            assert!(matches!(*start, Value::U32(5)));
            assert!(matches!(*end, Value::U32(2)));
            assert_eq!(t, Type::U32);
        }
        other => panic!("expected a range, got {:?}", other),
    }
}

#[test]
fn mixed_range_endpoints_fault() {
    let module = Module::new(
        vec![
            ValueType::Default(Value::U32(1)),
            ValueType::Default(Value::U8(2)),
        ],
        vec![Chunk {
            bytes: vec![LOAD_CONST, 0, 0, LOAD_CONST, 1, 0, NEW_RANGE, RETURN],
        }],
        Vec::new(),
        Vec::new(),
    );
    assert_eq!(run(&module, 100), Err(VMError::InvalidRangeType));
}

#[test]
fn casts_widen_and_narrow() {
    let module = Module::new(
        vec![ValueType::Default(Value::U32(300))],
        vec![Chunk {
            bytes: vec![LOAD_CONST, 0, 0, CAST_TO, 0, RETURN],
        }],
        Vec::new(),
        Vec::new(),
    );
    expect(&module, ValueType::Default(Value::U8(44)));
    let module2 = Module::new(
        vec![ValueType::Default(Value::U8(7))],
        vec![Chunk {
            bytes: vec![LOAD_CONST, 0, 0, CAST_TO, 3, RETURN],
        }],
        Vec::new(),
        Vec::new(),
    );
    expect(&module2, ValueType::Default(Value::U64(7)));
    let module3 = Module::new(
        vec![ValueType::Default(Value::U32(12))],
        vec![Chunk {
            bytes: vec![LOAD_CONST, 0, 0, CAST_TO, 7, RETURN],
        }],
        Vec::new(),
        Vec::new(),
    );
    expect(&module3, ValueType::Default(Value::String(String::from("12"))));
}

#[test]
fn swap_copy_and_pop_shape_the_stack() {
    let module = Module::new(
        vec![
            ValueType::Default(Value::U8(1)),
            ValueType::Default(Value::U8(2)),
        ],
        vec![Chunk {
            // push 1, push 2, swap, pop the 1: the 2 remains below.
            bytes: vec![
                LOAD_CONST, 0, 0, LOAD_CONST, 1, 0, SWAP, POP, RETURN,
            ],
        }],
        Vec::new(),
        Vec::new(),
    );
    expect(&module, ValueType::Default(Value::U8(2)));
}

#[test]
fn locals_alias_after_load() {
    // The array is stored in a local; loading it twice gives two
    // handles on one cell, so a write through one is seen by the other.
    let module = Module::new(
        vec![
            ValueType::Default(Value::U8(1)),
            ValueType::Default(Value::U8(9)),
        ],
        vec![Chunk {
            bytes: vec![
                LOAD_CONST, 0, 0, // 0: push 1
                NEW_ARRAY, 1, // 3: [1]
                STORE_LOCAL, 0, // 5
                LOAD_LOCAL, 0, // 7: first handle
                LOAD_CONST, 1, 0, // 9: push 9
                SUB_STORE, 0, // 12: array[0] = 9 through the handle
                LOAD_LOCAL, 0, // 14: second handle
                SUB_LOAD, 0, // 16: read array[0]
                RETURN, // 18
            ],
        }],
        Vec::new(),
        Vec::new(),
    );
    expect(&module, ValueType::Default(Value::U8(9)));
}

#[test]
fn map_set_writes_through_a_shared_map() {
    let module = Module::new(
        vec![
            ValueType::Default(Value::String(String::from("k"))),
            ValueType::Default(Value::U32(1)),
            ValueType::Default(Value::U32(8)),
        ],
        vec![Chunk {
            bytes: vec![
                LOAD_CONST, 0, 0, LOAD_CONST, 1, 0, NEW_MAP, 1, // {k: 1}
                STORE_LOCAL, 0, LOAD_LOCAL, 0, LOAD_CONST, 0, 0, LOAD_CONST, 2, 0,
                MAP_SET, // map[k] = 8
                LOAD_LOCAL, 0, LOAD_CONST, 0, 0, MAP_GET, RETURN,
            ],
        }],
        Vec::new(),
        Vec::new(),
    );
    expect(&module, ValueType::Default(Value::U32(8)));
}

#[test]
fn array_len_and_comparison_drive_a_branch() {
    // if [10, 20].len() < 3 { 111 } else { 222 }
    let code = vec![
        LOAD_CONST, 0, 0, // 0
        LOAD_CONST, 1, 0, // 3
        NEW_ARRAY, 2, // 6
        ARRAY_LEN, // 8
        LOAD_CONST, 2, 0, // 9
        LT, // 12
        JUMP_IF_FALSE, 4, 0, // 13: false: forward 4 from offset 16 to 20
        LOAD_CONST, 3, 0, // 16
        RETURN, // 19
        LOAD_CONST, 4, 0, // 20
        RETURN, // 23
    ];
    let module = Module::new(
        vec![
            ValueType::Default(Value::U8(10)),
            ValueType::Default(Value::U8(20)),
            ValueType::Default(Value::U32(3)),
            ValueType::Default(Value::U32(111)),
            ValueType::Default(Value::U32(222)),
        ],
        vec![Chunk { bytes: code }],
        Vec::new(),
        Vec::new(),
    );
    expect(&module, ValueType::Default(Value::U32(111)));
}

#[test]
fn calls_a_second_chunk_with_arguments() {
    // Chunk 1 multiplies its two locals; chunk 0 calls it on 6 and 7
    // and subtracts 2 from the result.
    let main = vec![
        LOAD_CONST, 0, 0, // 6
        LOAD_CONST, 1, 0, // 7
        CALL, 1, 0, 2, // call chunk 1 with two arguments
        LOAD_CONST, 2, 0, // 2
        SUB, RETURN,
    ];
    let callee = vec![LOAD_LOCAL, 0, LOAD_LOCAL, 1, MUL, RETURN];
    let module = Module::new(
        vec![
            ValueType::Default(Value::U32(6)),
            ValueType::Default(Value::U32(7)),
            ValueType::Default(Value::U32(2)),
        ],
        vec![Chunk { bytes: main }, Chunk { bytes: callee }],
        Vec::new(),
        Vec::new(),
    );
    expect(&module, ValueType::Default(Value::U32(40)));
}

#[test]
fn iter_begin_rejects_non_iterables() {
    let module = Module::new(
        vec![ValueType::Default(Value::U32(5))],
        vec![Chunk {
            bytes: vec![LOAD_CONST, 0, 0, ITER_BEGIN, RETURN],
        }],
        Vec::new(),
        Vec::new(),
    );
    assert_eq!(run(&module, 100), Err(VMError::InvalidIterable));
}

#[test]
fn struct_field_count_must_match_schema() {
    // The schema declares two fields; the constant only carries one.
    let module = Module::new(
        vec![ValueType::Struct(
            vec![ValueType::Default(Value::U8(1))],
            0,
        )],
        Vec::new(),
        vec![StructSchema {
            fields: vec![Type::U8, Type::Bool],
        }],
        Vec::new(),
    );
    let env = Environment::new();
    let validator = xvm::validator::ModuleValidator::new(&module, &env);
    assert_eq!(
        validator.verify(),
        Err(xvm::errors::ValidatorError::IncorrectFields)
    );
}

#[test]
fn constants_nested_too_deep_are_rejected() {
    let mut v = ValueType::Default(Value::U8(1));
    let mut i = 0;
    while i < 20 {
        v = ValueType::Array(vec![v]);
        i += 1;
    }
    let module = Module::new(vec![v], Vec::new(), Vec::new(), Vec::new());
    let env = Environment::new();
    let validator = xvm::validator::ModuleValidator::new(&module, &env);
    assert_eq!(
        validator.verify(),
        Err(xvm::errors::ValidatorError::TooManyConstants)
    );
}

#[test]
fn sub_cast_faults_cleanly() {
    let module = Module::new(
        vec![ValueType::Default(Value::String(String::from("no")))],
        vec![Chunk {
            bytes: vec![LOAD_CONST, 0, 0, CAST_TO, 0, RETURN],
        }],
        Vec::new(),
        Vec::new(),
    );
    assert_eq!(run(&module, 100), Err(VMError::InvalidCast));
    let underflow = Module::new(
        vec![
            ValueType::Default(Value::U8(1)),
            ValueType::Default(Value::U8(2)),
        ],
        vec![Chunk {
            bytes: vec![LOAD_CONST, 0, 0, LOAD_CONST, 1, 0, SUB, RETURN],
        }],
        Vec::new(),
        Vec::new(),
    );
    assert_eq!(
        run(&underflow, 100),
        Err(VMError::ValueError(ValueError::IntegerOverflow))
    );
}

#[test]
fn validator_rejects_recursive_enum() {
    let module = Module::new(
        Vec::new(),
        Vec::new(),
        Vec::new(),
        vec![EnumSchema {
            variants: vec![EnumVariant {
                fields: vec![Type::Enum(0)],
            }],
        }],
    );
    let env = Environment::new();
    let validator = xvm::validator::ModuleValidator::new(&module, &env);
    assert_eq!(
        validator.verify(),
        Err(xvm::errors::ValidatorError::RecursiveEnum)
    );
}

#[test]
fn validator_rejects_bad_constant_range() {
    let module = Module::new(
        vec![ValueType::Default(Value::Range(
            Box::new(Value::U8(1)),
            Box::new(Value::U16(4)),
            Type::U8,
        ))],
        Vec::new(),
        Vec::new(),
        Vec::new(),
    );
    let env = Environment::new();
    let validator = xvm::validator::ModuleValidator::new(&module, &env);
    assert_eq!(
        validator.verify(),
        Err(xvm::errors::ValidatorError::InvalidRange)
    );
    let mistyped = Module::new(
        vec![ValueType::Default(Value::Range(
            Box::new(Value::U8(1)),
            Box::new(Value::U8(4)),
            Type::U16,
        ))],
        Vec::new(),
        Vec::new(),
        Vec::new(),
    );
    let validator2 = xvm::validator::ModuleValidator::new(&mistyped, &env);
    assert_eq!(
        validator2.verify(),
        Err(xvm::errors::ValidatorError::InvalidRangeType)
    );
}

#[test]
fn validator_accepts_a_well_formed_module() {
    let module = Module::new(
        vec![
            ValueType::Default(Value::U32(1)),
            ValueType::Array(vec![ValueType::Default(Value::U8(1))]),
            ValueType::Default(Value::Range(
                Box::new(Value::U8(1)),
                Box::new(Value::U8(4)),
                Type::U8,
            )),
        ],
        vec![Chunk {
            bytes: vec![LOAD_CONST, 0, 0, RETURN],
        }],
        vec![StructSchema {
            fields: vec![Type::U8],
        }],
        vec![EnumSchema {
            variants: vec![EnumVariant { fields: Vec::new() }],
        }],
    );
    let env = Environment::new();
    let validator = xvm::validator::ModuleValidator::new(&module, &env);
    assert_eq!(validator.verify(), Ok(()));
}

#[test]
fn types_describe_themselves() {
    assert_eq!(Type::U32.describe(), "u32");
    assert_eq!(
        Type::Array(Box::new(Type::Bool)).describe(),
        "bool[]"
    );
    assert_eq!(
        Type::Mapping(Box::new(Type::String), Box::new(Type::U8)).describe(),
        "map<string, u8>"
    );
    assert_eq!(
        Type::Optional(Box::new(Type::U64)).describe(),
        "optional<u64>"
    );
}
