use xvm::environment::Environment;
use xvm::errors::{EnvironmentError, ValidatorError, VMError, ValueError};
use xvm::machine::VM;
use xvm::module::{Chunk, Module};
use xvm::types::{StructSchema, Type};
use xvm::validator::ModuleValidator;
use xvm::value_type::{cells_equal, ValueType};
use xvm::values::Value;

const LOAD_CONST: u8 = 0;
const STORE_LOCAL: u8 = 2;
const LOAD_LOCAL: u8 = 1;
const JUMP: u8 = 6;
const INVOKE_NATIVE: u8 = 9;
const RETURN: u8 = 10;
const NEW_ARRAY: u8 = 11;
const NEW_STRUCT: u8 = 12;
const NEW_MAP: u8 = 13;
const SUB_LOAD: u8 = 16;
const MAP_GET: u8 = 18;
const ITER_BEGIN: u8 = 21;
const ITER_NEXT: u8 = 22;
const ITER_END: u8 = 23;
const ADD: u8 = 25;
const DIV: u8 = 28;

fn module_of(constants: Vec<ValueType>, code: Vec<u8>) -> Module {
    Module::new(constants, vec![Chunk { bytes: code }], Vec::new(), Vec::new())
}

fn run_program(module: &Module, gas: u64) -> Result<ValueType, VMError> {
    let env = Environment::new();
    let mut vm = VM::new(module, &env, gas);
    vm.invoke_entry_chunk(0, Vec::new())
}

#[test]
fn adds_two_constants() {
    let module = module_of(
        vec![
            ValueType::Default(Value::U32(2)),
            ValueType::Default(Value::U32(3)),
        ],
        vec![LOAD_CONST, 0, 0, LOAD_CONST, 1, 0, ADD, RETURN],
    );
    let out = run_program(&module, 100).unwrap();
    assert!(cells_equal(&out, &ValueType::Default(Value::U32(5))));
}

#[test]
fn sums_an_array_through_iteration() {
    // Slot 0 holds the running sum; the loop head (IterNext) sits at
    // offset 17 and the loop exit (IterEnd) at offset 28.
    let code = vec![
        LOAD_CONST, 3, 0, // 0: sum = 0
        STORE_LOCAL, 0, // 3
        LOAD_CONST, 0, 0, // 5
        LOAD_CONST, 1, 0, // 8
        LOAD_CONST, 2, 0, // 11
        NEW_ARRAY, 3, // 14
        ITER_BEGIN, // 16
        ITER_NEXT, 8, 0, // 17: exhausted: forward 8 from offset 20 to 28
        LOAD_LOCAL, 0, // 20
        ADD, // 22
        STORE_LOCAL, 0, // 23
        JUMP, 245, 255, // 25: back 11 from offset 28 to the loop head at 17
        ITER_END, // 28
        LOAD_LOCAL, 0, // 29
        RETURN, // 31
    ];
    let module = module_of(
        vec![
            ValueType::Default(Value::U8(10)),
            ValueType::Default(Value::U8(20)),
            ValueType::Default(Value::U8(30)),
            ValueType::Default(Value::U8(0)),
        ],
        code,
    );
    let out = run_program(&module, 1000).unwrap();
    assert!(cells_equal(&out, &ValueType::Default(Value::U8(60))));
}

#[test]
fn builds_a_map_and_reads_a_key() {
    let module = module_of(
        vec![
            ValueType::Default(Value::String(String::from("a"))),
            ValueType::Default(Value::U32(1)),
            ValueType::Default(Value::String(String::from("b"))),
            ValueType::Default(Value::U32(2)),
        ],
        vec![
            LOAD_CONST, 0, 0, LOAD_CONST, 1, 0, LOAD_CONST, 2, 0, LOAD_CONST, 3, 0, NEW_MAP, 2,
            LOAD_CONST, 2, 0, MAP_GET, RETURN,
        ],
    );
    let out = run_program(&module, 100).unwrap();
    assert!(cells_equal(&out, &ValueType::Default(Value::U32(2))));
}

#[test]
fn builds_a_struct_and_reads_a_field() {
    let module = Module::new(
        vec![
            ValueType::Default(Value::U8(7)),
            ValueType::Default(Value::Boolean(true)),
        ],
        vec![Chunk {
            bytes: vec![
                LOAD_CONST, 0, 0, LOAD_CONST, 1, 0, NEW_STRUCT, 0, 0, SUB_LOAD, 0, RETURN,
            ],
        }],
        vec![StructSchema {
            fields: vec![Type::U8, Type::Bool],
        }],
        Vec::new(),
    );
    let out = run_program(&module, 100).unwrap();
    assert!(cells_equal(&out, &ValueType::Default(Value::U8(7))));
}

#[test]
fn division_by_zero_faults() {
    let module = module_of(
        vec![
            ValueType::Default(Value::U32(5)),
            ValueType::Default(Value::U32(0)),
        ],
        vec![LOAD_CONST, 0, 0, LOAD_CONST, 1, 0, DIV, RETURN],
    );
    assert_eq!(run_program(&module, 100), Err(VMError::DivisionByZero));
}

#[test]
fn gas_limit_stops_the_run_at_the_limit() {
    let module = module_of(
        vec![ValueType::Default(Value::U32(1))],
        vec![
            LOAD_CONST, 0, 0, LOAD_CONST, 0, 0, LOAD_CONST, 0, 0, LOAD_CONST, 0, 0, RETURN,
        ],
    );
    let env = Environment::new();
    let mut vm = VM::new(&module, &env, 3);
    let out = vm.invoke_entry_chunk(0, Vec::new());
    assert_eq!(out, Err(VMError::OutOfGas));
    assert_eq!(vm.gas_used(), 3);
}

#[test]
fn rejected_module_never_runs() {
    // The single struct schema is directly recursive, so validation
    // fails and the machine refuses to execute anything.
    let module = Module::new(
        Vec::new(),
        vec![Chunk {
            bytes: vec![RETURN],
        }],
        vec![StructSchema {
            fields: vec![Type::Struct(0)],
        }],
        Vec::new(),
    );
    assert_eq!(
        run_program(&module, 100),
        Err(VMError::Validation(ValidatorError::RecursiveStruct))
    );
}

#[test]
fn validator_rejects_recursive_struct() {
    let module = Module::new(
        Vec::new(),
        Vec::new(),
        vec![StructSchema {
            fields: vec![Type::Struct(0)],
        }],
        Vec::new(),
    );
    let env = Environment::new();
    let validator = ModuleValidator::new(&module, &env);
    assert_eq!(validator.verify(), Err(ValidatorError::RecursiveStruct));
}

#[test]
fn validator_rejects_heavy_constant() {
    let module = Module::new(
        vec![ValueType::Default(Value::String("x".repeat(1200)))],
        Vec::new(),
        Vec::new(),
        Vec::new(),
    );
    let env = Environment::new();
    let validator = ModuleValidator::new(&module, &env);
    assert_eq!(validator.verify(), Err(ValidatorError::TooMuchMemoryUsage));
}

#[test]
fn validator_rejects_truncated_operand() {
    let module = module_of(Vec::new(), vec![LOAD_CONST, 0]);
    let env = Environment::new();
    let validator = ModuleValidator::new(&module, &env);
    assert_eq!(
        validator.verify(),
        Err(ValidatorError::InvalidOpCodeArguments)
    );
}

#[test]
fn validator_rejects_unknown_opcode() {
    let module = module_of(Vec::new(), vec![99]);
    let env = Environment::new();
    let validator = ModuleValidator::new(&module, &env);
    assert_eq!(validator.verify(), Err(ValidatorError::InvalidOpCode));
}

#[test]
fn validator_rejects_map_key_that_is_a_map() {
    let key = ValueType::Mapping(Vec::new());
    let value = ValueType::Default(Value::U8(1));
    let module = Module::new(
        vec![ValueType::Mapping(vec![(key, value)])],
        Vec::new(),
        Vec::new(),
        Vec::new(),
    );
    let env = Environment::new();
    let validator = ModuleValidator::new(&module, &env);
    assert_eq!(validator.verify(), Err(ValidatorError::InvalidKeyType));
}

#[test]
fn runtime_rejects_map_key_that_is_a_map() {
    let module = module_of(
        vec![
            ValueType::Mapping(Vec::new()),
            ValueType::Default(Value::U8(1)),
        ],
        vec![LOAD_CONST, 0, 0, LOAD_CONST, 1, 0, NEW_MAP, 1, RETURN],
    );
    assert_eq!(
        run_program(&module, 100),
        Err(VMError::EnvironmentError(EnvironmentError::InvalidKeyType))
    );
}

#[test]
fn primitive_constants_round_trip_through_a_run() {
    let samples = vec![
        ValueType::Default(Value::Null),
        ValueType::Default(Value::U8(200)),
        ValueType::Default(Value::U16(40000)),
        ValueType::Default(Value::U32(70000)),
        ValueType::Default(Value::U64(1 << 40)),
        ValueType::Default(Value::U128(1 << 100)),
        ValueType::Default(Value::Boolean(true)),
        ValueType::Default(Value::String(String::from("round trip"))),
    ];
    for v in samples {
        let module = module_of(vec![v.clone()], vec![LOAD_CONST, 0, 0, RETURN]);
        let out = run_program(&module, 100).unwrap();
        assert!(cells_equal(&out, &v));
    }
}

#[test]
fn stack_underflow_faults() {
    let module = module_of(Vec::new(), vec![ADD, RETURN]);
    assert_eq!(run_program(&module, 100), Err(VMError::StackUnderflow));
}

#[test]
fn arithmetic_overflow_faults() {
    let module = module_of(
        vec![
            ValueType::Default(Value::U8(200)),
            ValueType::Default(Value::U8(100)),
        ],
        vec![LOAD_CONST, 0, 0, LOAD_CONST, 1, 0, ADD, RETURN],
    );
    assert_eq!(
        run_program(&module, 100),
        Err(VMError::ValueError(ValueError::IntegerOverflow))
    );
}

#[test]
fn mixed_types_do_not_add() {
    let module = module_of(
        vec![
            ValueType::Default(Value::U8(1)),
            ValueType::Default(Value::U16(1)),
        ],
        vec![LOAD_CONST, 0, 0, LOAD_CONST, 1, 0, ADD, RETURN],
    );
    assert_eq!(
        run_program(&module, 100),
        Err(VMError::ValueError(ValueError::OperationNotNumberType))
    );
}

#[test]
fn native_functions_run_and_charge_gas() {
    let mut env = Environment::new();
    xvm::natives::register(&mut env);
    // Function id 5 is to_lowercase; it takes no arguments beyond the
    // receiver and costs one unit, while each opcode costs one.
    let module = module_of(
        vec![ValueType::Default(Value::String(String::from("HeLLo")))],
        vec![LOAD_CONST, 0, 0, INVOKE_NATIVE, 5, 0, 0, RETURN],
    );
    let mut vm = VM::new(&module, &env, 100);
    let out = vm.invoke_entry_chunk(0, Vec::new()).unwrap();
    assert!(cells_equal(
        &out,
        &ValueType::Default(Value::String(String::from("hello")))
    ));
    assert_eq!(vm.gas_used(), 4);
}

#[test]
fn native_contains_reads_its_argument() {
    let mut env = Environment::new();
    xvm::natives::register(&mut env);
    // Function id 2 is contains with one string parameter: the receiver
    // is pushed first, then the argument.
    let module = module_of(
        vec![
            ValueType::Default(Value::String(String::from("hello world"))),
            ValueType::Default(Value::String(String::from("lo w"))),
        ],
        vec![
            LOAD_CONST, 0, 0, LOAD_CONST, 1, 0, INVOKE_NATIVE, 2, 0, 1, RETURN,
        ],
    );
    let mut vm = VM::new(&module, &env, 100);
    let out = vm.invoke_entry_chunk(0, Vec::new()).unwrap();
    assert!(cells_equal(&out, &ValueType::Default(Value::Boolean(true))));
}

#[test]
fn out_of_gas_native_keeps_the_limit() {
    let mut env = Environment::new();
    xvm::natives::register(&mut env);
    // matches (id 15) costs fifty, far past this budget.
    let module = module_of(
        vec![
            ValueType::Default(Value::String(String::from("aaa"))),
            ValueType::Default(Value::String(String::from("a"))),
        ],
        vec![
            LOAD_CONST, 0, 0, LOAD_CONST, 1, 0, INVOKE_NATIVE, 15, 0, 1, RETURN,
        ],
    );
    let mut vm = VM::new(&module, &env, 10);
    let out = vm.invoke_entry_chunk(0, Vec::new());
    assert_eq!(out, Err(VMError::OutOfGas));
    assert_eq!(vm.gas_used(), 10);
}

#[test]
fn environment_registry_is_addressable() {
    let mut env = Environment::new();
    xvm::natives::register(&mut env);
    assert_eq!(env.get_functions().len(), 18);
    env.set_cost_for_function_at_index(0, 9);
    let f = env.get_function_by_id(0).unwrap();
    assert_eq!(f.cost(), 9);
    env.add_structure(4, StructSchema { fields: vec![Type::U8] });
    assert_eq!(env.get_structure(4).map(|s| s.fields.len()), Some(1));
    assert!(env.get_structure(5).is_none());
}
