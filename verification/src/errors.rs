use vstd::prelude::*;

verus! {

/// Faults raised while reading, converting or mutating values.
#[derive(Clone, Copy, Debug, PartialEq, Eq, Structural)]
pub enum ValueError {
    /// The value does not have the shape the operation expects.
    InvalidValueType,
    /// A struct (or its fields) was expected.
    ExpectedStruct,
    /// An optional was unwrapped while holding nothing.
    OptionalIsNull,
    /// The value has no addressable sub-values.
    SubValue,
    /// An index reached past the end of an array or field list.
    OutOfBounds,
    /// A weak handle was dereferenced after its cell died.
    WeakValue,
    /// An arithmetic step was asked of a non-numeric value.
    OperationNotNumberType,
    /// The requested cast is not defined for this value.
    InvalidCastType,
    /// A primitive type byte or tag was out of range.
    InvalidPrimitiveType,
    /// A checked numeric cast would not fit the target width.
    CastOverflow,
    /// Checked arithmetic exceeded the width of the value's type.
    IntegerOverflow,
    /// A shared cell stood where a fully owned plain value was needed.
    SharedValue,
}

/// Faults raised by the environment when dispatching native functions.
#[derive(Clone, Copy, Debug, PartialEq, Eq, Structural)]
pub enum EnvironmentError {
    /// Argument count or receiver presence does not match the declaration.
    InvalidFnCall,
    /// The function expects a receiver and none was supplied.
    FnExpectedInstance,
    /// A map was offered as a map key.
    InvalidKeyType,
    /// The gas budget was exhausted.
    NotEnoughGas,
    /// A value fault surfaced inside a native function.
    ValueError(ValueError),
}

/// Faults found by the module validator before execution.
#[derive(Clone, Copy, Debug, PartialEq, Eq, Structural)]
pub enum ValidatorError {
    TooMuchMemoryUsage,
    TooManyConstants,
    TooManyChunks,
    TooManyTypes,
    TooManyStructs,
    TooManyStructFields,
    RecursiveStruct,
    TooManyEnums,
    TooManyEnumsVariants,
    TooManyEnumsVariantsFields,
    RecursiveEnum,
    IncorrectFields,
    IncorrectVariant,
    InvalidOpCode,
    InvalidOpCodeArguments,
    InvalidRange,
    InvalidRangeType,
    /// A map stood as a map key inside a constant.
    InvalidKeyType,
    ValueError(ValueError),
}

/// Faults raised while the virtual machine is running.
#[derive(Clone, Copy, Debug, PartialEq, Eq, Structural)]
pub enum VMError {
    StackOverflow,
    StackUnderflow,
    OutOfGas,
    DivisionByZero,
    InvalidIterable,
    InvalidRangeType,
    InvalidEnumVariant,
    InvalidOpCode,
    ChunkNotFound,
    ConstantNotFound,
    StructNotFound,
    EnumNotFound,
    UnknownNativeFunction,
    RegisterNotFound,
    EmptyIterator,
    /// A read reached past the end of the chunk's bytes.
    EndOfChunk,
    /// The machine has faulted before and is terminal.
    Terminated,
    InvalidCast,
    /// The module failed validation; execution never starts.
    Validation(ValidatorError),
    EnvironmentError(EnvironmentError),
    ValueError(ValueError),
}

/// Faults raised while a compiler lowers an abstract syntax tree to chunks.
#[derive(Clone, Copy, Debug, PartialEq, Eq, Structural)]
pub enum CompilerError {
    ExpectedBreak,
    ExpectedContinue,
    MissingBreakPatch,
    MissingContinuePatch,
    MemoryStoreNotEmpty,
    ExpectedOperatorAssignment,
    UnexpectedOperator,
    ExpectedMemstoreId,
    ExpectedVariable,
    ExpectedPrimitiveType,
    ExpectedValueOnStack,
    DanglingValueOnStack,
}

} // verus!
