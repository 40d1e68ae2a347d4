use vstd::prelude::*;

use crate::types::{EnumSchema, StructSchema};
use crate::value_type::ValueType;

verus! {

broadcast use vstd::group_vstd_default;

/// A callable unit: a byte sequence of opcodes and inline operands.
#[derive(Debug)]
pub struct Chunk {
    pub bytes: Vec<u8>,
}

impl View for Chunk {
    type V = Seq<u8>;

    open spec fn view(&self) -> Seq<u8> {
        self.bytes@
    }
}

/// A compiled program: its constants, its chunks, and the struct and
/// enum schemas it declares, each addressed by index.
#[derive(Debug)]
pub struct Module {
    pub constants: Vec<ValueType>,
    pub chunks: Vec<Chunk>,
    pub structs: Vec<StructSchema>,
    pub enums: Vec<EnumSchema>,
}

/// One opcode of the virtual machine.
#[derive(Clone, Copy, Debug, PartialEq, Eq, Structural)]
pub enum OpCode {
    LoadConst,
    LoadLocal,
    StoreLocal,
    Pop,
    Copy,
    Swap,
    Jump,
    JumpIfFalse,
    Call,
    InvokeNative,
    Return,
    NewArray,
    NewStruct,
    NewMap,
    NewRange,
    NewEnum,
    SubLoad,
    SubStore,
    MapGet,
    MapSet,
    ArrayLen,
    IterBegin,
    IterNext,
    IterEnd,
    CastTo,
    Add,
    Sub,
    Mul,
    Div,
    Mod,
    Neg,
    And,
    Or,
    Not,
    Eq,
    Ne,
    Lt,
    Le,
    Gt,
    Ge,
    Shl,
    Shr,
    BitAnd,
    BitOr,
    BitXor,
}

/// The opcode each byte decodes to, if any.
pub open spec fn spec_opcode_of_byte(byte: u8) -> Option<OpCode> {
    if byte == 0 {
        Some(OpCode::LoadConst)
    } else if byte == 1 {
        Some(OpCode::LoadLocal)
    } else if byte == 2 {
        Some(OpCode::StoreLocal)
    } else if byte == 3 {
        Some(OpCode::Pop)
    } else if byte == 4 {
        Some(OpCode::Copy)
    } else if byte == 5 {
        Some(OpCode::Swap)
    } else if byte == 6 {
        Some(OpCode::Jump)
    } else if byte == 7 {
        Some(OpCode::JumpIfFalse)
    } else if byte == 8 {
        Some(OpCode::Call)
    } else if byte == 9 {
        Some(OpCode::InvokeNative)
    } else if byte == 10 {
        Some(OpCode::Return)
    } else if byte == 11 {
        Some(OpCode::NewArray)
    } else if byte == 12 {
        Some(OpCode::NewStruct)
    } else if byte == 13 {
        Some(OpCode::NewMap)
    } else if byte == 14 {
        Some(OpCode::NewRange)
    } else if byte == 15 {
        Some(OpCode::NewEnum)
    } else if byte == 16 {
        Some(OpCode::SubLoad)
    } else if byte == 17 {
        Some(OpCode::SubStore)
    } else if byte == 18 {
        Some(OpCode::MapGet)
    } else if byte == 19 {
        Some(OpCode::MapSet)
    } else if byte == 20 {
        Some(OpCode::ArrayLen)
    } else if byte == 21 {
        Some(OpCode::IterBegin)
    } else if byte == 22 {
        Some(OpCode::IterNext)
    } else if byte == 23 {
        Some(OpCode::IterEnd)
    } else if byte == 24 {
        Some(OpCode::CastTo)
    } else if byte == 25 {
        Some(OpCode::Add)
    } else if byte == 26 {
        Some(OpCode::Sub)
    } else if byte == 27 {
        Some(OpCode::Mul)
    } else if byte == 28 {
        Some(OpCode::Div)
    } else if byte == 29 {
        Some(OpCode::Mod)
    } else if byte == 30 {
        Some(OpCode::Neg)
    } else if byte == 31 {
        Some(OpCode::And)
    } else if byte == 32 {
        Some(OpCode::Or)
    } else if byte == 33 {
        Some(OpCode::Not)
    } else if byte == 34 {
        Some(OpCode::Eq)
    } else if byte == 35 {
        Some(OpCode::Ne)
    } else if byte == 36 {
        Some(OpCode::Lt)
    } else if byte == 37 {
        Some(OpCode::Le)
    } else if byte == 38 {
        Some(OpCode::Gt)
    } else if byte == 39 {
        Some(OpCode::Ge)
    } else if byte == 40 {
        Some(OpCode::Shl)
    } else if byte == 41 {
        Some(OpCode::Shr)
    } else if byte == 42 {
        Some(OpCode::BitAnd)
    } else if byte == 43 {
        Some(OpCode::BitOr)
    } else if byte == 44 {
        Some(OpCode::BitXor)
    } else {
        None
    }
}

/// How many inline argument bytes follow each opcode.
pub open spec fn spec_argument_bytes(op: OpCode) -> int {
    match op {
        OpCode::LoadConst => 2,
        OpCode::LoadLocal => 1,
        OpCode::StoreLocal => 1,
        OpCode::Jump => 2,
        OpCode::JumpIfFalse => 2,
        OpCode::Call => 3,
        OpCode::InvokeNative => 3,
        OpCode::NewArray => 1,
        OpCode::NewStruct => 2,
        OpCode::NewMap => 1,
        OpCode::NewEnum => 3,
        OpCode::SubLoad => 1,
        OpCode::SubStore => 1,
        OpCode::IterNext => 2,
        OpCode::CastTo => 1,
        _ => 0,
    }
}

impl OpCode {
    /// Decodes one byte.
    pub fn from_byte(byte: u8) -> (r: Option<OpCode>)
        ensures
            r == spec_opcode_of_byte(byte),
    {
        match byte {
            0 => Some(OpCode::LoadConst),
            1 => Some(OpCode::LoadLocal),
            2 => Some(OpCode::StoreLocal),
            3 => Some(OpCode::Pop),
            4 => Some(OpCode::Copy),
            5 => Some(OpCode::Swap),
            6 => Some(OpCode::Jump),
            7 => Some(OpCode::JumpIfFalse),
            8 => Some(OpCode::Call),
            9 => Some(OpCode::InvokeNative),
            10 => Some(OpCode::Return),
            11 => Some(OpCode::NewArray),
            12 => Some(OpCode::NewStruct),
            13 => Some(OpCode::NewMap),
            14 => Some(OpCode::NewRange),
            15 => Some(OpCode::NewEnum),
            16 => Some(OpCode::SubLoad),
            17 => Some(OpCode::SubStore),
            18 => Some(OpCode::MapGet),
            19 => Some(OpCode::MapSet),
            20 => Some(OpCode::ArrayLen),
            21 => Some(OpCode::IterBegin),
            22 => Some(OpCode::IterNext),
            23 => Some(OpCode::IterEnd),
            24 => Some(OpCode::CastTo),
            25 => Some(OpCode::Add),
            26 => Some(OpCode::Sub),
            27 => Some(OpCode::Mul),
            28 => Some(OpCode::Div),
            29 => Some(OpCode::Mod),
            30 => Some(OpCode::Neg),
            31 => Some(OpCode::And),
            32 => Some(OpCode::Or),
            33 => Some(OpCode::Not),
            34 => Some(OpCode::Eq),
            35 => Some(OpCode::Ne),
            36 => Some(OpCode::Lt),
            37 => Some(OpCode::Le),
            38 => Some(OpCode::Gt),
            39 => Some(OpCode::Ge),
            40 => Some(OpCode::Shl),
            41 => Some(OpCode::Shr),
            42 => Some(OpCode::BitAnd),
            43 => Some(OpCode::BitOr),
            44 => Some(OpCode::BitXor),
            _ => None,
        }
    }

    /// How many inline argument bytes follow this opcode.
    pub fn arguments_bytes(&self) -> (r: usize)
        ensures
            r == spec_argument_bytes(*self),
    {
        match self {
            OpCode::LoadConst => 2,
            OpCode::LoadLocal => 1,
            OpCode::StoreLocal => 1,
            OpCode::Jump => 2,
            OpCode::JumpIfFalse => 2,
            OpCode::Call => 3,
            OpCode::InvokeNative => 3,
            OpCode::NewArray => 1,
            OpCode::NewStruct => 2,
            OpCode::NewMap => 1,
            OpCode::NewEnum => 3,
            OpCode::SubLoad => 1,
            OpCode::SubStore => 1,
            OpCode::IterNext => 2,
            OpCode::CastTo => 1,
            _ => 0,
        }
    }
}

/// Whether every instruction of a chunk decodes and carries its full
/// operand bytes: a prefix of such a chunk never ends mid-operand.
pub open spec fn spec_chunk_ok(bytes: Seq<u8>, pc: int) -> bool
    decreases bytes.len() - pc,
{
    if pc >= bytes.len() || pc < 0 {
        true
    } else {
        match spec_opcode_of_byte(bytes[pc]) {
            None => false,
            Some(op) => pc + 1 + spec_argument_bytes(op) <= bytes.len() && spec_chunk_ok(
                bytes,
                pc + 1 + spec_argument_bytes(op),
            ),
        }
    }
}

impl Module {
    /// A module from its parts.
    pub fn new(
        constants: Vec<ValueType>,
        chunks: Vec<Chunk>,
        structs: Vec<StructSchema>,
        enums: Vec<EnumSchema>,
    ) -> (r: Module)
        ensures
            r.constants == constants,
            r.chunks == chunks,
            r.structs == structs,
            r.enums == enums,
    {
        Module { constants, chunks, structs, enums }
    }
}

} // verus!
