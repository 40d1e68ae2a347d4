use vstd::prelude::*;

use crate::errors::EnvironmentError;
use crate::types::{EnumSchema, StructSchema, Type};

verus! {

broadcast use vstd::group_vstd_default;

#[verifier::external_type_specification]
#[verifier::external_body]
#[verifier::reject_recursive_types(K)]
#[verifier::reject_recursive_types(V)]
#[verifier::reject_recursive_types(S)]
pub struct ExIndexMap<K, V, S>(indexmap::IndexMap<K, V, S>);

/// What a registry of struct schemas holds, by schema id.
pub uninterp spec fn struct_entries(
    m: indexmap::IndexMap<u16, StructSchema, std::hash::RandomState>,
) -> Map<u16, Seq<Type>>;

/// What a registry of enum schemas holds, by schema id.
pub uninterp spec fn enum_entries(
    m: indexmap::IndexMap<u16, EnumSchema, std::hash::RandomState>,
) -> Map<u16, Seq<Seq<Type>>>;

/// Relies on indexmap::IndexMap::new: the new map holds nothing.
#[verifier::external_body]
fn struct_map_new() -> (r: indexmap::IndexMap<u16, StructSchema, std::hash::RandomState>)
    ensures
        struct_entries(r) =~= Map::empty(),
{
    indexmap::IndexMap::new()
}

/// Relies on indexmap::IndexMap::new: the new map holds nothing.
#[verifier::external_body]
fn enum_map_new() -> (r: indexmap::IndexMap<u16, EnumSchema, std::hash::RandomState>)
    ensures
        enum_entries(r) =~= Map::empty(),
{
    indexmap::IndexMap::new()
}

/// Relies on indexmap::IndexMap::insert: the entry is added, or
/// replaces the entry the key had, keeping insertion order.
#[verifier::external_body]
fn struct_map_insert(
    m: &mut indexmap::IndexMap<u16, StructSchema, std::hash::RandomState>,
    k: u16,
    v: StructSchema,
)
    ensures
        struct_entries(*final(m)) == struct_entries(*old(m)).insert(k, v@),
{
    m.insert(k, v);
}

/// Relies on indexmap::IndexMap::insert: the entry is added, or
/// replaces the entry the key had, keeping insertion order.
#[verifier::external_body]
fn enum_map_insert(
    m: &mut indexmap::IndexMap<u16, EnumSchema, std::hash::RandomState>,
    k: u16,
    v: EnumSchema,
)
    ensures
        enum_entries(*final(m)) == enum_entries(*old(m)).insert(k, v@),
{
    m.insert(k, v);
}

/// Relies on indexmap::IndexMap::get: the entry stored under the key is
/// returned, when the key is present.
#[verifier::external_body]
fn struct_map_get<'a>(
    m: &'a indexmap::IndexMap<u16, StructSchema, std::hash::RandomState>,
    k: &u16,
) -> (r: Option<&'a StructSchema>)
    ensures
        match r {
            Some(v) => struct_entries(*m).contains_key(*k) && v@ == struct_entries(*m)[*k],
            None => !struct_entries(*m).contains_key(*k),
        },
{
    m.get(k)
}

/// Relies on indexmap::IndexMap::get: the entry stored under the key is
/// returned, when the key is present.
#[verifier::external_body]
fn enum_map_get<'a>(
    m: &'a indexmap::IndexMap<u16, EnumSchema, std::hash::RandomState>,
    k: &u16,
) -> (r: Option<&'a EnumSchema>)
    ensures
        match r {
            Some(v) => enum_entries(*m).contains_key(*k) && v@ == enum_entries(*m)[*k],
            None => !enum_entries(*m).contains_key(*k),
        },
{
    m.get(k)
}

/// Which native routine a registered function runs: the environment
/// dispatches on this tag, so every native stays a function the
/// verifier has seen.
#[derive(Clone, Copy, Debug, PartialEq, Eq, Structural)]
pub enum NativeKind {
    StringLen,
    StringTrim,
    StringContains,
    StringContainsIgnoreCase,
    StringToUppercase,
    StringToLowercase,
    StringToBytes,
    StringIndexOf,
    StringLastIndexOf,
    StringReplace,
    StringStartsWith,
    StringEndsWith,
    StringSplit,
    StringCharAt,
    StringIsEmpty,
    StringMatches,
    StringSubstring,
    StringSubstringRange,
}

/// A native function record: an optional receiver type, the declared
/// parameter types, the routine to run, its gas cost, and the declared
/// return type.
#[derive(Debug)]
pub struct NativeFunction {
    for_type: Option<Type>,
    parameters: Vec<Type>,
    on_call: NativeKind,
    cost: u64,
    return_type: Option<Type>,
}

impl NativeFunction {
    /// Binds a native routine with its declared signature and cost.
    pub fn new(
        for_type: Option<Type>,
        parameters: Vec<Type>,
        on_call: NativeKind,
        cost: u64,
        return_type: Option<Type>,
    ) -> (r: NativeFunction)
        ensures
            r.spec_for_type() == for_type,
            r.spec_parameters() == parameters@,
            r.spec_kind() == on_call,
            r.spec_cost() == cost,
            r.spec_return_type() == return_type,
    {
        NativeFunction { for_type, parameters, on_call, cost, return_type }
    }

    pub closed spec fn spec_for_type(&self) -> Option<Type> {
        self.for_type
    }

    pub closed spec fn spec_parameters(&self) -> Seq<Type> {
        self.parameters@
    }

    pub closed spec fn spec_kind(&self) -> NativeKind {
        self.on_call
    }

    pub closed spec fn spec_cost(&self) -> u64 {
        self.cost
    }

    pub closed spec fn spec_return_type(&self) -> Option<Type> {
        self.return_type
    }

    /// The declared parameter types.
    pub fn get_parameters(&self) -> (r: &Vec<Type>)
        ensures
            r@ == self.spec_parameters(),
    {
        &self.parameters
    }

    /// The declared return type.
    pub fn return_type(&self) -> (r: &Option<Type>)
        ensures
            *r == self.spec_return_type(),
    {
        &self.return_type
    }

    /// The routine this record runs.
    pub fn kind(&self) -> (r: NativeKind)
        ensures
            r == self.spec_kind(),
    {
        self.on_call
    }

    /// The gas this function charges per call.
    pub fn cost(&self) -> (r: u64)
        ensures
            r == self.spec_cost(),
    {
        self.cost
    }

    /// Repriced by the host.
    pub fn set_cost(&mut self, cost: u64)
        ensures
            final(self).spec_cost() == cost,
            final(self).spec_for_type() == old(self).spec_for_type(),
            final(self).spec_parameters() == old(self).spec_parameters(),
            final(self).spec_kind() == old(self).spec_kind(),
            final(self).spec_return_type() == old(self).spec_return_type(),
    {
        self.cost = cost;
    }

    /// Whether the function declares a receiver.
    pub fn has_receiver(&self) -> (r: bool)
        ensures
            r == (self.spec_for_type() is Some),
    {
        self.for_type.is_some()
    }

    /// Whether a call shape matches the declaration: as many arguments
    /// as parameters, and a receiver exactly when one is declared.
    pub fn accepts(&self, has_instance: bool, argument_count: usize) -> (r: bool)
        ensures
            r == (argument_count == self.spec_parameters().len() && has_instance
                == self.spec_for_type() is Some),
    {
        argument_count == self.parameters.len() && has_instance == self.for_type.is_some()
    }
}

/// The registry of native functions and of the struct and enum schemas
/// the host grants to programs. Functions are addressed by their index
/// in registration order; schemas by their id.
#[derive(Debug)]
pub struct Environment {
    functions: Vec<NativeFunction>,
    structures: indexmap::IndexMap<u16, StructSchema, std::hash::RandomState>,
    enums: indexmap::IndexMap<u16, EnumSchema, std::hash::RandomState>,
}

impl Environment {
    pub closed spec fn spec_functions(&self) -> Seq<NativeFunction> {
        self.functions@
    }

    pub closed spec fn spec_structures(&self) -> Map<u16, Seq<Type>> {
        struct_entries(self.structures)
    }

    pub closed spec fn spec_enums(&self) -> Map<u16, Seq<Seq<Type>>> {
        enum_entries(self.enums)
    }

    /// An environment with nothing registered.
    pub fn new() -> (r: Environment)
        ensures
            r.spec_functions() =~= Seq::empty(),
            r.spec_structures() =~= Map::empty(),
            r.spec_enums() =~= Map::empty(),
    {
        Environment {
            functions: Vec::new(),
            structures: struct_map_new(),
            enums: enum_map_new(),
        }
    }

    /// The registered functions, in registration order.
    pub fn get_functions(&self) -> (r: &Vec<NativeFunction>)
        ensures
            r@ == self.spec_functions(),
    {
        &self.functions
    }

    /// Registers a function; its id is the next index.
    pub fn add_function(&mut self, function: NativeFunction)
        ensures
            final(self).spec_functions() == old(self).spec_functions().push(function),
            final(self).spec_structures() == old(self).spec_structures(),
            final(self).spec_enums() == old(self).spec_enums(),
    {
        self.functions.push(function);
    }

    /// The function registered under an id, for repricing.
    pub fn get_function_by_id_mut(&mut self, id: usize) -> (r: Option<&mut NativeFunction>)
        ensures
            match r {
                Some(f) => {
                    &&& id < old(self).spec_functions().len()
                    &&& *f == old(self).spec_functions()[id as int]
                    &&& final(self).spec_functions() == old(self).spec_functions().update(
                        id as int,
                        *final(f),
                    )
                    &&& final(self).spec_structures() == old(self).spec_structures()
                    &&& final(self).spec_enums() == old(self).spec_enums()
                },
                None => id >= old(self).spec_functions().len() && *final(self) == *old(self),
            },
    {
        if id < self.functions.len() {
            Some(&mut self.functions[id])
        } else {
            None
        }
    }

    /// The function registered under an id.
    pub fn get_function_by_id(&self, id: usize) -> (r: Option<&NativeFunction>)
        ensures
            match r {
                Some(f) => id < self.spec_functions().len() && *f == self.spec_functions()[
                    id as int
                ],
                None => id >= self.spec_functions().len(),
            },
    {
        if id < self.functions.len() {
            Some(&self.functions[id])
        } else {
            None
        }
    }

    /// The whole registry of struct schemas, by id.
    pub fn get_structures(&self) -> (r: &indexmap::IndexMap<
        u16,
        StructSchema,
        std::hash::RandomState,
    >)
        ensures
            struct_entries(*r) == self.spec_structures(),
    {
        &self.structures
    }

    /// The whole registry of enum schemas, by id.
    pub fn get_enums(&self) -> (r: &indexmap::IndexMap<u16, EnumSchema, std::hash::RandomState>)
        ensures
            enum_entries(*r) == self.spec_enums(),
    {
        &self.enums
    }

    /// Registers a struct schema under its id.
    pub fn add_structure(&mut self, id: u16, structure: StructSchema)
        ensures
            final(self).spec_structures() == old(self).spec_structures().insert(id, structure@),
            final(self).spec_functions() == old(self).spec_functions(),
            final(self).spec_enums() == old(self).spec_enums(),
    {
        struct_map_insert(&mut self.structures, id, structure);
    }

    /// Registers an enum schema under its id.
    pub fn add_enum(&mut self, id: u16, schema: EnumSchema)
        ensures
            final(self).spec_enums() == old(self).spec_enums().insert(id, schema@),
            final(self).spec_functions() == old(self).spec_functions(),
            final(self).spec_structures() == old(self).spec_structures(),
    {
        enum_map_insert(&mut self.enums, id, schema);
    }

    /// The struct schema registered under an id.
    pub fn get_structure(&self, id: u16) -> (r: Option<&StructSchema>)
        ensures
            match r {
                Some(v) => self.spec_structures().contains_key(id) && v@
                    == self.spec_structures()[id],
                None => !self.spec_structures().contains_key(id),
            },
    {
        struct_map_get(&self.structures, &id)
    }

    /// The enum schema registered under an id.
    pub fn get_enum(&self, id: u16) -> (r: Option<&EnumSchema>)
        ensures
            match r {
                Some(v) => self.spec_enums().contains_key(id) && v@ == self.spec_enums()[id],
                None => !self.spec_enums().contains_key(id),
            },
    {
        enum_map_get(&self.enums, &id)
    }

    /// Reprices the function at an index; an index past the end does
    /// nothing.
    pub fn set_cost_for_function_at_index(&mut self, index: usize, cost: u64)
        ensures
            final(self).spec_structures() == old(self).spec_structures(),
            final(self).spec_enums() == old(self).spec_enums(),
            final(self).spec_functions().len() == old(self).spec_functions().len(),
            index < old(self).spec_functions().len() ==> {
                &&& final(self).spec_functions()[index as int].spec_cost() == cost
                &&& final(self).spec_functions()[index as int].spec_kind() == old(
                    self,
                ).spec_functions()[index as int].spec_kind()
                &&& final(self).spec_functions()[index as int].spec_for_type() == old(
                    self,
                ).spec_functions()[index as int].spec_for_type()
                &&& final(self).spec_functions()[index as int].spec_parameters() == old(
                    self,
                ).spec_functions()[index as int].spec_parameters()
                &&& final(self).spec_functions()[index as int].spec_return_type() == old(
                    self,
                ).spec_functions()[index as int].spec_return_type()
                &&& forall|j: int|
                    0 <= j < old(self).spec_functions().len() && j != index
                        ==> final(self).spec_functions()[j] == old(self).spec_functions()[j]
            },
            index >= old(self).spec_functions().len() ==> *final(self) == *old(self),
    {
        match self.get_function_by_id_mut(index) {
            Some(function) => {
                function.set_cost(cost);
            },
            None => {},
        }
    }
}

/// The sum of a sequence of gas charges.
pub open spec fn charges_sum(charges: Seq<u64>) -> int
    decreases charges,
{
    if charges.len() == 0 {
        0
    } else {
        charges[0] + charges_sum(charges.drop_first())
    }
}

/// Per-invocation metering state: the gas spent so far, the budget, and
/// the record of every successful charge.
pub struct Context {
    gas_used: u64,
    gas_limit: u64,
    charges: Ghost<Seq<u64>>,
}

impl Context {
    pub closed spec fn spec_gas_used(&self) -> u64 {
        self.gas_used
    }

    pub closed spec fn spec_gas_limit(&self) -> u64 {
        self.gas_limit
    }

    pub closed spec fn spec_charges(&self) -> Seq<u64> {
        self.charges@
    }

    /// While no charge has failed, the gas spent is exactly the sum of
    /// the charges taken, and within the budget.
    pub open spec fn wf(&self) -> bool {
        self.spec_gas_used() == charges_sum(self.spec_charges()) && self.spec_gas_used()
            <= self.spec_gas_limit()
    }

    /// A fresh meter with the given budget.
    pub fn new(gas_limit: u64) -> (r: Context)
        ensures
            r.spec_gas_used() == 0,
            r.spec_gas_limit() == gas_limit,
            r.spec_charges() =~= Seq::empty(),
            r.wf(),
    {
        Context { gas_used: 0, gas_limit, charges: Ghost(Seq::empty()) }
    }

    pub fn gas_used(&self) -> (r: u64)
        ensures
            r == self.spec_gas_used(),
    {
        self.gas_used
    }

    pub fn gas_limit(&self) -> (r: u64)
        ensures
            r == self.spec_gas_limit(),
    {
        self.gas_limit
    }

    /// Charges gas. A charge that would pass the budget fails, and the
    /// meter then reads exactly the budget: the spent amount is kept,
    /// never refunded.
    pub fn increase_gas_usage(&mut self, cost: u64) -> (r: Result<(), EnvironmentError>)
        ensures
            match r {
                Ok(()) => {
                    &&& old(self).spec_gas_used() + cost <= old(self).spec_gas_limit()
                    &&& final(self).spec_gas_used() == old(self).spec_gas_used() + cost
                    &&& final(self).spec_charges() == old(self).spec_charges().push(cost)
                    &&& old(self).wf() ==> final(self).wf()
                },
                Err(e) => {
                    &&& old(self).spec_gas_used() + cost > old(self).spec_gas_limit()
                    &&& final(self).spec_gas_used() == old(self).spec_gas_limit()
                    &&& final(self).spec_charges() == old(self).spec_charges()
                    &&& e == EnvironmentError::NotEnoughGas
                },
            },
            final(self).spec_gas_limit() == old(self).spec_gas_limit(),
    {
        if cost <= self.gas_limit && self.gas_used <= self.gas_limit - cost {
            let ghost prior = self.charges@;
            self.gas_used = self.gas_used + cost;
            proof {
                self.charges@ = prior.push(cost);
                lemma_charges_sum_push(prior, cost);
            }
            Ok(())
        } else {
            self.gas_used = self.gas_limit;
            Err(EnvironmentError::NotEnoughGas)
        }
    }
}

/// Appending one charge adds it to the sum.
proof fn lemma_charges_sum_push(charges: Seq<u64>, cost: u64)
    ensures
        charges_sum(charges.push(cost)) == charges_sum(charges) + cost,
    decreases charges,
{
    if charges.len() == 0 {
        assert(charges.push(cost).drop_first() =~= Seq::empty());
        assert(charges_sum(Seq::empty()) == 0);
    } else {
        assert(charges.push(cost).drop_first() =~= charges.drop_first().push(cost));
        lemma_charges_sum_push(charges.drop_first(), cost);
    }
}

} // verus!
