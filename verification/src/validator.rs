use vstd::prelude::*;
use vstd::string::StringSliceAdditionalSpecFns;
use vstd::string::StrSliceExecFns;

use crate::environment::Environment;
use crate::errors::ValidatorError;
use crate::module::{spec_argument_bytes, spec_opcode_of_byte, Module, OpCode};
use crate::types::{EnumSchema, StructSchema, Type};
use crate::value_type::{cell_view, CellV, ValueType};
use crate::values::{spec_type_of, numeric_of, ValueV};

verus! {

broadcast use vstd::group_vstd_default;

/// The deepest nesting a constant may have.
pub open spec fn spec_max_constant_depth() -> int {
    16
}

/// The memory budget all of a module's constants share, in weight
/// units.
pub open spec fn spec_max_constant_memory() -> int {
    1024
}

/// The struct schema a constant's struct id resolves to: the module's
/// schemas come first, the environment's fill the remaining ids.
pub open spec fn spec_resolve_struct(
    structs: Seq<StructSchema>,
    env_structs: Map<u16, Seq<Type>>,
    id: u16,
) -> Option<Seq<Type>> {
    if id < structs.len() {
        Some(structs[id as int].fields@)
    } else if env_structs.contains_key(id) {
        Some(env_structs[id])
    } else {
        None
    }
}

/// The enum schema an enum id resolves to.
pub open spec fn spec_resolve_enum(
    enums: Seq<EnumSchema>,
    env_enums: Map<u16, Seq<Seq<Type>>>,
    id: u16,
) -> Option<Seq<Seq<Type>>> {
    if id < enums.len() {
        Some(enums[id as int]@)
    } else if env_enums.contains_key(id) {
        Some(env_enums[id])
    } else {
        None
    }
}

/// The ghost bundle of every schema table a constant can refer to.
pub struct SchemaTables {
    pub structs: Seq<StructSchema>,
    pub enums: Seq<EnumSchema>,
    pub env_structs: Map<u16, Seq<Type>>,
    pub env_enums: Map<u16, Seq<Seq<Type>>>,
}

/// What verifying one constant node returns: its weight, or the first
/// fault found. The depth may not pass the nesting bound; the node's
/// weight and its children's may not pass the remaining budget; struct
/// and enum nodes must match their schemas; ranges must hold two
/// numbers of their declared type; map keys must not be maps.
pub open spec fn spec_verify_value(c: CellV, depth: int, budget: int, t: SchemaTables) -> Result<
    int,
    ValidatorError,
>
    decreases c, 1int,
{
    if depth > spec_max_constant_depth() {
        Err(ValidatorError::TooManyConstants)
    } else {
        match c {
            CellV::Prim(v) => match v {
                ValueV::Range(start, end, ty) => {
                    if numeric_of(*start) is None || numeric_of(*end) is None {
                        Err(ValidatorError::InvalidRange)
                    } else if spec_type_of(*start) != spec_type_of(*end) {
                        Err(ValidatorError::InvalidRange)
                    } else if spec_type_of(*start) != Some(ty) {
                        Err(ValidatorError::InvalidRangeType)
                    } else if 5 > budget {
                        Err(ValidatorError::TooMuchMemoryUsage)
                    } else {
                        Ok(5)
                    }
                },
                _ => {
                    let w = 1 + spec_prim_weight(v);
                    if w > budget {
                        Err(ValidatorError::TooMuchMemoryUsage)
                    } else {
                        Ok(w)
                    }
                },
            },
            CellV::Struct(fields, id) => match spec_resolve_struct(t.structs, t.env_structs, id) {
                None => Err(ValidatorError::TooManyStructs),
                Some(schema) => {
                    if fields.len() != schema.len() {
                        Err(ValidatorError::IncorrectFields)
                    } else if 9 > budget {
                        Err(ValidatorError::TooMuchMemoryUsage)
                    } else {
                        match spec_verify_children(fields, depth + 1, budget - 9, t) {
                            Ok(w) => Ok(9 + w),
                            Err(e) => Err(e),
                        }
                    }
                },
            },
            CellV::Array(elems) => {
                if elems.len() > u32::MAX {
                    Err(ValidatorError::TooManyConstants)
                } else if 5 > budget {
                    Err(ValidatorError::TooMuchMemoryUsage)
                } else {
                    match spec_verify_children(elems, depth + 1, budget - 5, t) {
                        Ok(w) => Ok(5 + w),
                        Err(e) => Err(e),
                    }
                }
            },
            CellV::Optional(o) => match o {
                None => {
                    if 1 > budget {
                        Err(ValidatorError::TooMuchMemoryUsage)
                    } else {
                        Ok(1)
                    }
                },
                Some(b) => {
                    if 2 > budget {
                        Err(ValidatorError::TooMuchMemoryUsage)
                    } else {
                        match spec_verify_value(*b, depth + 1, budget - 2, t) {
                            Ok(w) => Ok(2 + w),
                            Err(e) => Err(e),
                        }
                    }
                },
            },
            CellV::Mapping(entries) => {
                if entries.len() > u32::MAX {
                    Err(ValidatorError::TooManyConstants)
                } else if 17 > budget {
                    Err(ValidatorError::TooMuchMemoryUsage)
                } else {
                    match spec_verify_pairs(entries, depth + 1, budget - 17, t) {
                        Ok(w) => Ok(17 + w),
                        Err(e) => Err(e),
                    }
                }
            },
            CellV::Enum(fields, id) => match spec_resolve_enum(t.enums, t.env_enums, id.enum_id) {
                None => Err(ValidatorError::TooManyEnums),
                Some(variants) => {
                    if id.variant_id >= variants.len() {
                        Err(ValidatorError::IncorrectVariant)
                    } else if fields.len() != variants[id.variant_id as int].len() {
                        Err(ValidatorError::IncorrectFields)
                    } else if 11 > budget {
                        Err(ValidatorError::TooMuchMemoryUsage)
                    } else {
                        match spec_verify_children(fields, depth + 1, budget - 11, t) {
                            Ok(w) => Ok(11 + w),
                            Err(e) => Err(e),
                        }
                    }
                },
            },
        }
    }
}

/// The weight of a primitive constant node, without the node byte.
pub open spec fn spec_prim_weight(v: ValueV) -> int {
    match v {
        ValueV::Null => 1,
        ValueV::Bool(_) => 1,
        ValueV::U8(_) => 1,
        ValueV::U16(_) => 2,
        ValueV::U32(_) => 4,
        ValueV::U64(_) => 8,
        ValueV::U128(_) => 16,
        ValueV::U256(_) => 32,
        ValueV::Str(s) => vstd::utf8::encode_utf8(s).len() as int,
        ValueV::Range(_, _, _) => 4,
    }
}

/// Verifies children left to right, threading the remaining budget.
pub open spec fn spec_verify_children(
    s: Seq<CellV>,
    depth: int,
    budget: int,
    t: SchemaTables,
) -> Result<int, ValidatorError>
    decreases s, 0int,
{
    if s.len() == 0 {
        Ok(0)
    } else {
        match spec_verify_value(s[0], depth, budget, t) {
            Ok(w) => match spec_verify_children(s.drop_first(), depth, budget - w, t) {
                Ok(rest) => Ok(w + rest),
                Err(e) => Err(e),
            },
            Err(e) => Err(e),
        }
    }
}

/// Verifies map entries left to right: the key, which must not itself
/// be a map, then the value.
pub open spec fn spec_verify_pairs(
    s: Seq<(CellV, CellV)>,
    depth: int,
    budget: int,
    t: SchemaTables,
) -> Result<int, ValidatorError>
    decreases s, 0int,
{
    if s.len() == 0 {
        Ok(0)
    } else if s[0].0 is Mapping {
        Err(ValidatorError::InvalidKeyType)
    } else {
        match spec_verify_value(s[0].0, depth, budget, t) {
            Ok(kw) => match spec_verify_value(s[0].1, depth, budget - kw, t) {
                Ok(vw) => match spec_verify_pairs(s.drop_first(), depth, budget - kw - vw, t) {
                    Ok(rest) => Ok(kw + vw + rest),
                    Err(e) => Err(e),
                },
                Err(e) => Err(e),
            },
            Err(e) => Err(e),
        }
    }
}

/// Verifies all constants in order against one shared budget.
pub open spec fn spec_verify_constants(
    s: Seq<ValueType>,
    budget: int,
    t: SchemaTables,
) -> Result<int, ValidatorError>
    decreases s,
{
    if s.len() == 0 {
        Ok(0)
    } else {
        match spec_verify_value(cell_view(s[0]), 0, budget, t) {
            Ok(w) => match spec_verify_constants(s.drop_first(), budget - w, t) {
                Ok(rest) => Ok(w + rest),
                Err(e) => Err(e),
            },
            Err(e) => Err(e),
        }
    }
}

/// Decodes a chunk from an offset: every byte must begin a known opcode
/// whose operand bytes all lie inside the chunk.
pub open spec fn spec_verify_chunk(bytes: Seq<u8>, pc: int) -> Result<(), ValidatorError>
    decreases bytes.len() - pc,
{
    if pc >= bytes.len() || pc < 0 {
        Ok(())
    } else {
        match spec_opcode_of_byte(bytes[pc]) {
            None => Err(ValidatorError::InvalidOpCode),
            Some(op) => {
                if pc + 1 + spec_argument_bytes(op) > bytes.len() {
                    Err(ValidatorError::InvalidOpCodeArguments)
                } else {
                    spec_verify_chunk(bytes, pc + 1 + spec_argument_bytes(op))
                }
            },
        }
    }
}

/// Verifies every chunk in order.
pub open spec fn spec_verify_chunks(chunks: Seq<crate::module::Chunk>) -> Result<
    (),
    ValidatorError,
>
    decreases chunks,
{
    if chunks.len() == 0 {
        Ok(())
    } else {
        match spec_verify_chunk(chunks[0]@, 0) {
            Ok(()) => spec_verify_chunks(chunks.drop_first()),
            Err(e) => Err(e),
        }
    }
}

/// One struct schema is sound when its field count fits a byte and no
/// field is the struct itself.
pub open spec fn spec_verify_struct(s: StructSchema, own_id: int) -> Result<(), ValidatorError> {
    if s.fields@.len() > u8::MAX {
        Err(ValidatorError::TooManyStructFields)
    } else if exists|j: int|
        0 <= j < s.fields@.len() && s.fields@[j] == Type::Struct(own_id as u16) {
        Err(ValidatorError::RecursiveStruct)
    } else {
        Ok(())
    }
}

/// Verifies the module's struct schemas, by increasing id.
pub open spec fn spec_verify_structs(structs: Seq<StructSchema>, from: int) -> Result<
    (),
    ValidatorError,
>
    decreases structs.len() - from,
{
    if from >= structs.len() || from < 0 {
        Ok(())
    } else {
        match spec_verify_struct(structs[from], from) {
            Ok(()) => spec_verify_structs(structs, from + 1),
            Err(e) => Err(e),
        }
    }
}

/// One enum schema is sound when its variant and field counts fit a
/// byte and no variant field is the enum itself.
pub open spec fn spec_verify_enum(s: EnumSchema, own_id: int) -> Result<(), ValidatorError> {
    if s.variants@.len() > u8::MAX {
        Err(ValidatorError::TooManyEnumsVariants)
    } else if exists|v: int|
        0 <= v < s.variants@.len() && s.variants@[v].fields@.len() > u8::MAX {
        Err(ValidatorError::TooManyEnumsVariantsFields)
    } else if exists|v: int, j: int|
        0 <= v < s.variants@.len() && 0 <= j < s.variants@[v].fields@.len()
            && s.variants@[v].fields@[j] == Type::Enum(own_id as u16) {
        Err(ValidatorError::RecursiveEnum)
    } else {
        Ok(())
    }
}

/// Verifies the module's enum schemas, by increasing id.
pub open spec fn spec_verify_enums(enums: Seq<EnumSchema>, from: int) -> Result<
    (),
    ValidatorError,
>
    decreases enums.len() - from,
{
    if from >= enums.len() || from < 0 {
        Ok(())
    } else {
        match spec_verify_enum(enums[from], from) {
            Ok(()) => spec_verify_enums(enums, from + 1),
            Err(e) => Err(e),
        }
    }
}

/// What validating a whole module returns: the count bounds, then the
/// enums, the structs, the constants, and the chunks, in that order.
pub open spec fn spec_verify_module(m: Module, t: SchemaTables) -> Result<(), ValidatorError> {
    if m.constants@.len() >= u16::MAX {
        Err(ValidatorError::TooManyConstants)
    } else if m.chunks@.len() >= u16::MAX {
        Err(ValidatorError::TooManyChunks)
    } else if m.structs@.len() >= u16::MAX {
        Err(ValidatorError::TooManyStructs)
    } else if m.enums@.len() >= u16::MAX {
        Err(ValidatorError::TooManyEnums)
    } else if m.structs@.len() + m.enums@.len() >= u16::MAX {
        Err(ValidatorError::TooManyTypes)
    } else {
        match spec_verify_enums(m.enums@, 0) {
            Err(e) => Err(e),
            Ok(()) => match spec_verify_structs(m.structs@, 0) {
                Err(e) => Err(e),
                Ok(()) => match spec_verify_constants(
                    m.constants@,
                    spec_max_constant_memory(),
                    t,
                ) {
                    Err(e) => Err(e),
                    Ok(_) => spec_verify_chunks(m.chunks@),
                },
            },
        }
    }
}

/// Checks a module against an environment before any execution, so the
/// machine never runs unvetted constants, schemas or chunks.
pub struct ModuleValidator<'a> {
    module: &'a Module,
    environment: &'a Environment,
}

/// The schema tables the validator resolves against.
pub open spec fn spec_tables(m: Module, env: Environment) -> SchemaTables {
    SchemaTables {
        structs: m.structs@,
        enums: m.enums@,
        env_structs: env.spec_structures(),
        env_enums: env.spec_enums(),
    }
}

impl<'a> ModuleValidator<'a> {
    pub closed spec fn spec_module(&self) -> Module {
        *self.module
    }

    pub closed spec fn spec_environment(&self) -> Environment {
        *self.environment
    }

    /// A validator over a module and the environment it will run in.
    pub fn new(module: &'a Module, environment: &'a Environment) -> (r: ModuleValidator<'a>)
        ensures
            r.spec_module() == *module,
            r.spec_environment() == *environment,
    {
        ModuleValidator { module, environment }
    }

    /// Verifies one constant node and its children.
    fn verify_value(&self, value: &ValueType, depth: usize, budget: usize) -> (r: Result<
        usize,
        ValidatorError,
    >)
        requires
            budget <= spec_max_constant_memory(),
            depth <= spec_max_constant_depth() + 1,
        ensures
            (match r {
                Ok(w) => Ok(w as int),
                Err(e) => Err(e),
            }) == spec_verify_value(value@, depth as int, budget as int, spec_tables(*self.module, *self.environment)),
            r matches Ok(w) ==> w <= budget,
        decreases value, 1int,
    {
        let ghost t = spec_tables(*self.module, *self.environment);
        if depth > 16 {
            return Err(ValidatorError::TooManyConstants);
        }
        match value {
            ValueType::Default(v) => match v {
                crate::values::Value::Range(start, end, ty) => {
                    if !start.is_number() || !end.is_number() {
                        return Err(ValidatorError::InvalidRange);
                    }
                    let st = match start.get_type() {
                        Ok(ty2) => ty2,
                        Err(_) => {
                            return Err(ValidatorError::InvalidRange);
                        },
                    };
                    let et = match end.get_type() {
                        Ok(ty2) => ty2,
                        Err(_) => {
                            return Err(ValidatorError::InvalidRange);
                        },
                    };
                    if !st.eq(&et) {
                        return Err(ValidatorError::InvalidRange);
                    }
                    if !st.eq(ty) {
                        return Err(ValidatorError::InvalidRangeType);
                    }
                    if 5 > budget {
                        return Err(ValidatorError::TooMuchMemoryUsage);
                    }
                    Ok(5)
                },
                _ => {
                    let w = 1 + prim_weight(v, budget);
                    if w > budget {
                        return Err(ValidatorError::TooMuchMemoryUsage);
                    }
                    Ok(w)
                },
            },
            ValueType::Struct(fields, id) => {
                proof {
                    assert(crate::value_type::cells_view(fields@).len() == fields@.len());
                }
                let schema_len: usize = match self.resolve_struct_len(*id) {
                    Some(n) => n,
                    None => {
                        return Err(ValidatorError::TooManyStructs);
                    },
                };
                if fields.len() != schema_len {
                    return Err(ValidatorError::IncorrectFields);
                }
                if 9 > budget {
                    return Err(ValidatorError::TooMuchMemoryUsage);
                }
                match self.verify_children(value, fields, depth, budget - 9) {
                    Ok(w) => Ok(9 + w),
                    Err(e) => Err(e),
                }
            },
            ValueType::Array(elems) => {
                proof {
                    assert(crate::value_type::cells_view(elems@).len() == elems@.len());
                }
                if elems.len() > u32::MAX as usize {
                    return Err(ValidatorError::TooManyConstants);
                }
                if 5 > budget {
                    return Err(ValidatorError::TooMuchMemoryUsage);
                }
                match self.verify_children(value, elems, depth, budget - 5) {
                    Ok(w) => Ok(5 + w),
                    Err(e) => Err(e),
                }
            },
            ValueType::Optional(o) => match o {
                None => {
                    if 1 > budget {
                        return Err(ValidatorError::TooMuchMemoryUsage);
                    }
                    Ok(1)
                },
                Some(b) => {
                    if 2 > budget {
                        return Err(ValidatorError::TooMuchMemoryUsage);
                    }
                    match self.verify_value(&**b, depth + 1, budget - 2) {
                        Ok(w) => Ok(2 + w),
                        Err(e) => Err(e),
                    }
                },
            },
            ValueType::Mapping(entries) => {
                proof {
                    assert(crate::value_type::pairs_view(entries@).len() == entries@.len());
                }
                if entries.len() > u32::MAX as usize {
                    return Err(ValidatorError::TooManyConstants);
                }
                if 17 > budget {
                    return Err(ValidatorError::TooMuchMemoryUsage);
                }
                match self.verify_pairs(value, entries, depth, budget - 17) {
                    Ok(w) => Ok(17 + w),
                    Err(e) => Err(e),
                }
            },
            ValueType::Enum(fields, id) => {
                proof {
                    assert(crate::value_type::cells_view(fields@).len() == fields@.len());
                }
                let variant_len: usize = match self.resolve_enum_variant_len(
                    id.enum_id,
                    id.variant_id,
                ) {
                    Ok(n) => n,
                    Err(e) => {
                        return Err(e);
                    },
                };
                if fields.len() != variant_len {
                    return Err(ValidatorError::IncorrectFields);
                }
                if 11 > budget {
                    return Err(ValidatorError::TooMuchMemoryUsage);
                }
                match self.verify_children(value, fields, depth, budget - 11) {
                    Ok(w) => Ok(11 + w),
                    Err(e) => Err(e),
                }
            },
        }
    }

    /// The field count of the schema a struct id resolves to.
    fn resolve_struct_len(&self, id: u16) -> (r: Option<usize>)
        ensures
            match r {
                Some(n) => spec_resolve_struct(
                    self.module.structs@,
                    self.environment.spec_structures(),
                    id,
                ) matches Some(schema) && n == schema.len(),
                None => spec_resolve_struct(
                    self.module.structs@,
                    self.environment.spec_structures(),
                    id,
                ) is None,
            },
    {
        if (id as usize) < self.module.structs.len() {
            Some(self.module.structs[id as usize].fields.len())
        } else {
            match self.environment.get_structure(id) {
                Some(schema) => Some(schema.fields.len()),
                None => None,
            }
        }
    }

    /// The field count of a variant of the schema an enum id resolves
    /// to; an unknown enum or variant is a fault.
    fn resolve_enum_variant_len(&self, id: u16, variant_id: u8) -> (r: Result<
        usize,
        ValidatorError,
    >)
        ensures
            match r {
                Ok(n) => spec_resolve_enum(
                    self.module.enums@,
                    self.environment.spec_enums(),
                    id,
                ) matches Some(variants) && variant_id < variants.len() && n == variants[
                    variant_id as int
                ].len(),
                Err(e) => match spec_resolve_enum(
                    self.module.enums@,
                    self.environment.spec_enums(),
                    id,
                ) {
                    None => e == ValidatorError::TooManyEnums,
                    Some(variants) => variant_id >= variants.len() && e
                        == ValidatorError::IncorrectVariant,
                },
            },
    {
        if (id as usize) < self.module.enums.len() {
            let schema = &self.module.enums[id as usize];
            if (variant_id as usize) < schema.variants.len() {
                proof {
                    assert(crate::types::variants_view(schema.variants@)[variant_id as int]
                        == schema.variants@[variant_id as int].fields@);
                }
                Ok(schema.variants[variant_id as usize].fields.len())
            } else {
                Err(ValidatorError::IncorrectVariant)
            }
        } else {
            match self.environment.get_enum(id) {
                Some(schema) => {
                    if (variant_id as usize) < schema.variants.len() {
                        proof {
                            assert(crate::types::variants_view(schema.variants@)[variant_id as int]
                                == schema.variants@[variant_id as int].fields@);
                        }
                        Ok(schema.variants[variant_id as usize].fields.len())
                    } else {
                        Err(ValidatorError::IncorrectVariant)
                    }
                },
                None => Err(ValidatorError::TooManyEnums),
            }
        }
    }

    /// Verifies the children of a composite constant node.
    fn verify_children(
        &self,
        owner: &ValueType,
        fields: &Vec<ValueType>,
        depth: usize,
        budget: usize,
    ) -> (r: Result<usize, ValidatorError>)
        requires
            budget <= spec_max_constant_memory(),
            depth <= spec_max_constant_depth(),
            *owner == ValueType::Struct(*fields, owner->Struct_1) || *owner == ValueType::Array(
                *fields,
            ) || *owner == ValueType::Enum(*fields, owner->Enum_1),
        ensures
            (match r {
                Ok(w) => Ok(w as int),
                Err(e) => Err(e),
            }) == spec_verify_children(
                crate::value_type::cells_view(fields@),
                depth as int + 1,
                budget as int,
                spec_tables(*self.module, *self.environment),
            ),
            r matches Ok(w) ==> w <= budget,
        decreases owner, 0int,
    {
        let ghost t = spec_tables(*self.module, *self.environment);
        let ghost cs = crate::value_type::cells_view(fields@);
        proof {
            assert(cs.skip(0) =~= cs);
        }
        let mut acc: usize = 0;
        let mut i: usize = 0;
        while i < fields.len()
            invariant
                budget <= spec_max_constant_memory(),
                depth <= spec_max_constant_depth(),
                *owner == ValueType::Struct(*fields, owner->Struct_1) || *owner == ValueType::Array(
                    *fields,
                ) || *owner == ValueType::Enum(*fields, owner->Enum_1),
                cs == crate::value_type::cells_view(fields@),
                t == spec_tables(*self.module, *self.environment),
                i <= fields.len(),
                acc <= budget,
                spec_verify_children(cs, depth as int + 1, budget as int, t) == (
                match spec_verify_children(
                    cs.skip(i as int),
                    depth as int + 1,
                    budget as int - acc,
                    t,
                ) {
                    Ok(w) => Ok(w + acc),
                    Err(e) => Err::<int, _>(e),
                }),
            decreases fields.len() - i,
        {
            proof {
                if *owner == ValueType::Struct(*fields, owner->Struct_1) {
                    assert(decreases_to!(*owner => owner->Struct_0));
                } else if *owner == ValueType::Array(*fields) {
                    assert(decreases_to!(*owner => owner->Array_0));
                } else {
                    assert(decreases_to!(*owner => owner->Enum_0));
                }
                assert(decreases_to!(*fields => fields@[i as int]));
                assert(cs.len() == fields@.len());
                assert(cs.skip(i as int).len() == cs.len() - i);
                assert(cs.skip(i as int)[0] == cell_view(fields@[i as int]));
                assert(cs.skip(i as int).drop_first() =~= cs.skip(i as int + 1));
            }
            let ghost i0 = i as int;
            let ghost acc0 = acc as int;
            match self.verify_value(&fields[i], depth + 1, budget - acc) {
                Ok(w) => {
                    acc = acc + w;
                    proof {
                        assert(t == spec_tables(*self.module, *self.environment));
                        assert(spec_verify_value(cs.skip(i0)[0], depth as int + 1, budget - acc0, t)
                            == Ok::<int, ValidatorError>(w as int));
                        assert(cs.skip(i0).len() > 0);
                        assert(spec_verify_children(cs.skip(i0), depth as int + 1, budget - acc0, t)
                            == (match spec_verify_children(
                            cs.skip(i0 + 1),
                            depth as int + 1,
                            budget - acc0 - w,
                            t,
                        ) {
                            Ok(r2) => Ok(w + r2),
                            Err(e) => Err::<int, _>(e),
                        }));
                    }
                },
                Err(e) => {
                    proof {
                        assert(spec_verify_children(cs.skip(i0), depth as int + 1, budget - acc0, t)
                            == Err::<int, _>(e));
                    }
                    return Err(e);
                },
            }
            i += 1;
        }
        proof {
            assert(cs.skip(fields@.len() as int) =~= Seq::empty());
        }
        Ok(acc)
    }

    /// Verifies the entries of a map constant node.
    fn verify_pairs(
        &self,
        owner: &ValueType,
        entries: &Vec<(ValueType, ValueType)>,
        depth: usize,
        budget: usize,
    ) -> (r: Result<usize, ValidatorError>)
        requires
            budget <= spec_max_constant_memory(),
            depth <= spec_max_constant_depth(),
            *owner == ValueType::Mapping(*entries),
        ensures
            (match r {
                Ok(w) => Ok(w as int),
                Err(e) => Err(e),
            }) == spec_verify_pairs(
                crate::value_type::pairs_view(entries@),
                depth as int + 1,
                budget as int,
                spec_tables(*self.module, *self.environment),
            ),
            r matches Ok(w) ==> w <= budget,
        decreases owner, 0int,
    {
        let ghost t = spec_tables(*self.module, *self.environment);
        let ghost cs = crate::value_type::pairs_view(entries@);
        proof {
            assert(cs.skip(0) =~= cs);
        }
        let mut acc: usize = 0;
        let mut i: usize = 0;
        while i < entries.len()
            invariant
                budget <= spec_max_constant_memory(),
                depth <= spec_max_constant_depth(),
                *owner == ValueType::Mapping(*entries),
                cs == crate::value_type::pairs_view(entries@),
                t == spec_tables(*self.module, *self.environment),
                i <= entries.len(),
                acc <= budget,
                spec_verify_pairs(cs, depth as int + 1, budget as int, t) == (
                match spec_verify_pairs(
                    cs.skip(i as int),
                    depth as int + 1,
                    budget as int - acc,
                    t,
                ) {
                    Ok(w) => Ok(w + acc),
                    Err(e) => Err::<int, _>(e),
                }),
            decreases entries.len() - i,
        {
            proof {
                assert(decreases_to!(*owner => owner->Mapping_0));
                assert(decreases_to!(*entries => entries@[i as int]));
                assert(decreases_to!(entries@[i as int] => entries@[i as int].0));
                assert(decreases_to!(entries@[i as int] => entries@[i as int].1));
                assert(cs.len() == entries@.len());
                assert(cs.skip(i as int).len() == cs.len() - i);
                assert(cs.skip(i as int)[0] == (
                    cell_view(entries@[i as int].0),
                    cell_view(entries@[i as int].1),
                ));
                assert(cs.skip(i as int).drop_first() =~= cs.skip(i as int + 1));
            }
            let ghost i0 = i as int;
            let ghost acc0 = acc as int;
            let pair = &entries[i];
            if pair.0.is_map() {
                return Err(ValidatorError::InvalidKeyType);
            }
            let kw = match self.verify_value(&pair.0, depth + 1, budget - acc) {
                Ok(w) => w,
                Err(e) => {
                    return Err(e);
                },
            };
            let vw = match self.verify_value(&pair.1, depth + 1, budget - acc - kw) {
                Ok(w) => w,
                Err(e) => {
                    return Err(e);
                },
            };
            acc = acc + kw + vw;
            proof {
                assert(spec_verify_pairs(cs.skip(i0), depth as int + 1, budget - acc0, t) == (
                match spec_verify_pairs(cs.skip(i0 + 1), depth as int + 1, budget - acc0 - kw - vw, t) {
                    Ok(r2) => Ok(kw + vw + r2),
                    Err(e) => Err::<int, _>(e),
                }));
            }
            i += 1;
        }
        proof {
            assert(cs.skip(entries@.len() as int) =~= Seq::empty());
        }
        Ok(acc)
    }

    /// Verifies every constant of the module against the shared budget.
    fn verify_constants(&self) -> (r: Result<(), ValidatorError>)
        ensures
            match r {
                Ok(()) => spec_verify_constants(
                    self.module.constants@,
                    spec_max_constant_memory(),
                    spec_tables(*self.module, *self.environment),
                ) is Ok,
                Err(e) => spec_verify_constants(
                    self.module.constants@,
                    spec_max_constant_memory(),
                    spec_tables(*self.module, *self.environment),
                ) == Err::<int, _>(e),
            },
    {
        let ghost t = spec_tables(*self.module, *self.environment);
        let ghost cs = self.module.constants@;
        proof {
            assert(cs.skip(0) =~= cs);
        }
        let mut budget: usize = 1024;
        let mut i: usize = 0;
        while i < self.module.constants.len()
            invariant
                cs == self.module.constants@,
                t == spec_tables(*self.module, *self.environment),
                i <= cs.len(),
                budget <= spec_max_constant_memory(),
                spec_verify_constants(cs, spec_max_constant_memory(), t) == (
                match spec_verify_constants(cs.skip(i as int), budget as int, t) {
                    Ok(w) => Ok(w + (spec_max_constant_memory() - budget)),
                    Err(e) => Err::<int, _>(e),
                }),
            decreases cs.len() - i,
        {
            proof {
                assert(cs.skip(i as int).len() == cs.len() - i);
                assert(cs.skip(i as int)[0] == cs[i as int]);
                assert(cs.skip(i as int).drop_first() =~= cs.skip(i as int + 1));
            }
            let ghost i0 = i as int;
            let ghost b0 = budget as int;
            match self.verify_value(&self.module.constants[i], 0, budget) {
                Ok(w) => {
                    budget = budget - w;
                    proof {
                        assert(spec_verify_constants(cs.skip(i0), b0, t) == (
                        match spec_verify_constants(cs.skip(i0 + 1), b0 - w, t) {
                            Ok(r2) => Ok(w + r2),
                            Err(e) => Err::<int, _>(e),
                        }));
                    }
                },
                Err(e) => {
                    return Err(e);
                },
            }
            i += 1;
        }
        proof {
            assert(cs.skip(cs.len() as int) =~= Seq::empty());
        }
        Ok(())
    }

    /// Verifies that every chunk decodes cleanly.
    fn verify_chunks(&self) -> (r: Result<(), ValidatorError>)
        ensures
            r == spec_verify_chunks(self.module.chunks@),
    {
        let ghost chs = self.module.chunks@;
        proof {
            assert(chs.skip(0) =~= chs);
        }
        let mut i: usize = 0;
        while i < self.module.chunks.len()
            invariant
                chs == self.module.chunks@,
                i <= chs.len(),
                spec_verify_chunks(chs) == spec_verify_chunks(chs.skip(i as int)),
            decreases chs.len() - i,
        {
            let chunk = &self.module.chunks[i];
            let mut pc: usize = 0;
            while pc < chunk.bytes.len()
                invariant
                    chs == self.module.chunks@,
                    i < chs.len(),
                    *chunk == chs[i as int],
                    spec_verify_chunks(chs) == spec_verify_chunks(chs.skip(i as int)),
                    spec_verify_chunk(chunk@, 0) == spec_verify_chunk(chunk@, pc as int),
                    pc <= chunk.bytes.len(),
                decreases chunk.bytes.len() - pc,
            {
                let byte = chunk.bytes[pc];
                let op = match OpCode::from_byte(byte) {
                    Some(op) => op,
                    None => {
                        proof {
                            assert(spec_verify_chunk(chunk@, pc as int) == Err::<(), _>(
                                ValidatorError::InvalidOpCode,
                            ));
                            assert(chs.skip(i as int).len() == chs.len() - i);
                            assert(chs.skip(i as int)[0] == chs[i as int]);
                        }
                        return Err(ValidatorError::InvalidOpCode);
                    },
                };
                let args = op.arguments_bytes();
                if args > chunk.bytes.len() - 1 || pc > chunk.bytes.len() - 1 - args {
                    proof {
                        assert(spec_verify_chunk(chunk@, pc as int) == Err::<(), _>(
                            ValidatorError::InvalidOpCodeArguments,
                        ));
                        assert(chs.skip(i as int).len() == chs.len() - i);
                        assert(chs.skip(i as int)[0] == chs[i as int]);
                    }
                    return Err(ValidatorError::InvalidOpCodeArguments);
                }
                pc = pc + 1 + args;
            }
            proof {
                assert(spec_verify_chunk(chunk@, pc as int) == Ok::<(), ValidatorError>(()));
                assert(chs.skip(i as int).len() == chs.len() - i);
                assert(chs.skip(i as int)[0] == chs[i as int]);
                assert(chs.skip(i as int).drop_first() =~= chs.skip(i as int + 1));
            }
            i += 1;
        }
        proof {
            assert(chs.skip(chs.len() as int) =~= Seq::empty());
        }
        Ok(())
    }

    /// Verifies the module's enum schemas.
    fn verify_enums(&self) -> (r: Result<(), ValidatorError>)
        ensures
            r == spec_verify_enums(self.module.enums@, 0),
    {
        let ghost es = self.module.enums@;
        let mut i: usize = 0;
        while i < self.module.enums.len()
            invariant
                es == self.module.enums@,
                i <= es.len(),
                spec_verify_enums(es, 0) == spec_verify_enums(es, i as int),
            decreases es.len() - i,
        {
            let schema = &self.module.enums[i];
            if schema.variants.len() > u8::MAX as usize {
                proof {
                    assert(spec_verify_enum(es[i as int], i as int) == Err::<(), _>(
                        ValidatorError::TooManyEnumsVariants,
                    ));
                }
                return Err(ValidatorError::TooManyEnumsVariants);
            }
            let mut v: usize = 0;
            while v < schema.variants.len()
                invariant
                    es == self.module.enums@,
                    i < es.len(),
                    *schema == es[i as int],
                    schema.variants@.len() <= u8::MAX,
                    spec_verify_enums(es, 0) == spec_verify_enums(es, i as int),
                    v <= schema.variants@.len(),
                    forall|k: int| 0 <= k < v ==> schema.variants@[k].fields@.len() <= u8::MAX,
                decreases schema.variants@.len() - v,
            {
                if schema.variants[v].fields.len() > u8::MAX as usize {
                    proof {
                        assert(spec_verify_enum(es[i as int], i as int) == Err::<(), _>(
                            ValidatorError::TooManyEnumsVariantsFields,
                        ));
                    }
                    return Err(ValidatorError::TooManyEnumsVariantsFields);
                }
                v += 1;
            }
            let mut v2: usize = 0;
            while v2 < schema.variants.len()
                invariant
                    es == self.module.enums@,
                    i < es.len(),
                    *schema == es[i as int],
                    schema.variants@.len() <= u8::MAX,
                    spec_verify_enums(es, 0) == spec_verify_enums(es, i as int),
                    forall|k: int|
                        0 <= k < schema.variants@.len() ==> schema.variants@[k].fields@.len()
                            <= u8::MAX,
                    v2 <= schema.variants@.len(),
                    forall|k: int, j: int|
                        0 <= k < v2 && 0 <= j < schema.variants@[k].fields@.len()
                            ==> schema.variants@[k].fields@[j] != Type::Enum(i as u16),
                decreases schema.variants@.len() - v2,
            {
                let variant = &schema.variants[v2];
                let mut j: usize = 0;
                while j < variant.fields.len()
                    invariant
                        es == self.module.enums@,
                        i < es.len(),
                        *schema == es[i as int],
                        schema.variants@.len() <= u8::MAX,
                        spec_verify_enums(es, 0) == spec_verify_enums(es, i as int),
                        forall|k: int|
                            0 <= k < schema.variants@.len() ==> schema.variants@[k].fields@.len()
                                <= u8::MAX,
                        v2 < schema.variants@.len(),
                        *variant == schema.variants@[v2 as int],
                        j <= variant.fields@.len(),
                        forall|k: int| 0 <= k < j ==> variant.fields@[k] != Type::Enum(i as u16),
                    decreases variant.fields@.len() - j,
                {
                    if is_enum_of(&variant.fields[j], i as u16) {
                        proof {
                            assert(spec_verify_enum(es[i as int], i as int) == Err::<(), _>(
                                ValidatorError::RecursiveEnum,
                            ));
                        }
                        return Err(ValidatorError::RecursiveEnum);
                    }
                    j += 1;
                }
                v2 += 1;
            }
            proof {
                assert(spec_verify_enum(es[i as int], i as int) == Ok::<(), ValidatorError>(()));
            }
            i += 1;
        }
        Ok(())
    }

    /// Verifies the module's struct schemas.
    fn verify_structs(&self) -> (r: Result<(), ValidatorError>)
        ensures
            r == spec_verify_structs(self.module.structs@, 0),
    {
        let ghost ss = self.module.structs@;
        let mut i: usize = 0;
        while i < self.module.structs.len()
            invariant
                ss == self.module.structs@,
                i <= ss.len(),
                spec_verify_structs(ss, 0) == spec_verify_structs(ss, i as int),
            decreases ss.len() - i,
        {
            let schema = &self.module.structs[i];
            if schema.fields.len() > u8::MAX as usize {
                proof {
                    assert(spec_verify_struct(ss[i as int], i as int) == Err::<(), _>(
                        ValidatorError::TooManyStructFields,
                    ));
                }
                return Err(ValidatorError::TooManyStructFields);
            }
            let mut j: usize = 0;
            while j < schema.fields.len()
                invariant
                    ss == self.module.structs@,
                    i < ss.len(),
                    *schema == ss[i as int],
                    schema.fields@.len() <= u8::MAX,
                    spec_verify_structs(ss, 0) == spec_verify_structs(ss, i as int),
                    j <= schema.fields@.len(),
                    forall|k: int| 0 <= k < j ==> schema.fields@[k] != Type::Struct(i as u16),
                decreases schema.fields@.len() - j,
            {
                if is_struct_of(&schema.fields[j], i as u16) {
                    proof {
                        assert(spec_verify_struct(ss[i as int], i as int) == Err::<(), _>(
                            ValidatorError::RecursiveStruct,
                        ));
                    }
                    return Err(ValidatorError::RecursiveStruct);
                }
                j += 1;
            }
            proof {
                assert(spec_verify_struct(ss[i as int], i as int) == Ok::<(), ValidatorError>(()));
            }
            i += 1;
        }
        Ok(())
    }

    /// Verifies the module: nothing runs before this passes.
    pub fn verify(&self) -> (r: Result<(), ValidatorError>)
        ensures
            r == spec_verify_module(
                self.spec_module(),
                spec_tables(self.spec_module(), self.spec_environment()),
            ),
    {
        let max = u16::MAX as usize;
        if self.module.constants.len() >= max {
            return Err(ValidatorError::TooManyConstants);
        }
        if self.module.chunks.len() >= max {
            return Err(ValidatorError::TooManyChunks);
        }
        if self.module.structs.len() >= max {
            return Err(ValidatorError::TooManyStructs);
        }
        if self.module.enums.len() >= max {
            return Err(ValidatorError::TooManyEnums);
        }
        if self.module.structs.len() >= max - self.module.enums.len() {
            return Err(ValidatorError::TooManyTypes);
        }
        match self.verify_enums() {
            Ok(()) => {},
            Err(e) => {
                return Err(e);
            },
        }
        match self.verify_structs() {
            Ok(()) => {},
            Err(e) => {
                return Err(e);
            },
        }
        match self.verify_constants() {
            Ok(()) => {},
            Err(e) => {
                return Err(e);
            },
        }
        self.verify_chunks()
    }
}

/// Whether a type is exactly the struct with the given id.
fn is_struct_of(t: &Type, id: u16) -> (r: bool)
    ensures
        r == (*t == Type::Struct(id)),
{
    match t {
        Type::Struct(n) => *n == id,
        _ => false,
    }
}

/// Whether a type is exactly the enum with the given id.
fn is_enum_of(t: &Type, id: u16) -> (r: bool)
    ensures
        r == (*t == Type::Enum(id)),
{
    match t {
        Type::Enum(n) => *n == id,
        _ => false,
    }
}

/// The weight of a primitive constant value, capped only by what fits
/// the machine; a string's weight is its byte length.
fn prim_weight(v: &crate::values::Value, budget: usize) -> (r: usize)
    requires
        budget <= spec_max_constant_memory(),
        !(v@ is Range),
    ensures
        r as int == spec_prim_weight(v@) || (r > budget && spec_prim_weight(v@) > budget),
        r <= 2048,
{
    match v {
        crate::values::Value::Null => 1,
        crate::values::Value::Boolean(_) => 1,
        crate::values::Value::U8(_) => 1,
        crate::values::Value::U16(_) => 2,
        crate::values::Value::U32(_) => 4,
        crate::values::Value::U64(_) => 8,
        crate::values::Value::U128(_) => 16,
        crate::values::Value::U256(_) => 32,
        crate::values::Value::String(s) => {
            let t = s.as_str();
            let bytes = t.as_bytes_vec();
            let n = bytes.len();
            proof {
                assert(t@ == s@);
                assert(bytes@ == vstd::utf8::encode_utf8(s@));
            }
            if n > 2048 {
                2048
            } else {
                n
            }
        },
        crate::values::Value::Range(_, _, _) => 0,
    }
}

} // verus!
