use vstd::prelude::*;

use crate::cells::{
    ptr_view, ptrs_view, resolve_cell, rt_pairs_view, rt_plain, CellRt, PtrV, SharedCells,
    ValueCell, ValuePointer,
};
use crate::environment::{Context, Environment};
use crate::errors::{EnvironmentError, VMError, ValueError};
use crate::manager::ChunkManager;
use crate::module::Module;
use crate::stack::{spec_stack_capacity, Stack};
use crate::types::EnumValueId;
use crate::value_type::{cell_view, CellV, ValueType};
use crate::values::{numeric_of, spec_type_of, Value, ValueV};

verus! {

broadcast use vstd::group_vstd_default;

/// Pops `n` values off a stack known to hold them: the returned list
/// keeps the order they were pushed in, first pushed first.
pub fn pop_count(stack: &mut Stack, n: usize) -> (r: Vec<ValuePointer>)
    requires
        (*old(stack))@.len() >= n,
    ensures
        ptrs_view(r@) =~= (*old(stack))@.skip((*old(stack))@.len() - n),
        (*final(stack))@ =~= (*old(stack))@.take((*old(stack))@.len() - n),
{
    let mut reversed: Vec<ValuePointer> = Vec::new();
    let mut i: usize = 0;
    while i < n
        invariant
            i <= n,
            (*old(stack))@.len() >= n,
            stack@ =~= (*old(stack))@.take((*old(stack))@.len() - i),
            reversed@.len() == i,
            forall|j: int|
                0 <= j < i ==> #[trigger] ptr_view(reversed@[j]) == (*old(stack))@[(*old(
                    stack,
                ))@.len() - 1 - j],
        decreases n - i,
    {
        match stack.pop_stack() {
            Ok(p) => {
                let ghost pv = p@;
                reversed.push(p);
                proof {
                    assert(ptr_view(reversed@[i as int]) == pv);
                }
            },
            Err(_) => unreached(),
        }
        i += 1;
    }
    let mut out: Vec<ValuePointer> = Vec::new();
    let mut rest = reversed;
    while rest.len() > 0
        invariant
            out@.len() + rest@.len() == n,
            (*old(stack))@.len() >= n,
            forall|j: int|
                0 <= j < rest@.len() ==> #[trigger] ptr_view(rest@[j]) == (*old(stack))@[(*old(
                    stack,
                ))@.len() - 1 - j],
            forall|j: int|
                0 <= j < out@.len() ==> #[trigger] ptr_view(out@[j]) == (*old(stack))@[(*old(
                    stack,
                ))@.len() - n + j],
        decreases rest.len(),
    {
        match rest.pop() {
            Some(p) => {
                let ghost pv = p@;
                let ghost k = out@.len() as int;
                out.push(p);
                proof {
                    assert(ptr_view(out@[k]) == pv);
                    assert(pv == (*old(stack))@[(*old(stack))@.len() - 1 - (rest@.len() as int)]);
                }
            },
            None => unreached(),
        }
    }
    proof {
        assert(ptrs_view(out@).len() == out@.len());
        assert(forall|j: int|
            0 <= j < out@.len() ==> #[trigger] ptrs_view(out@)[j] == ptr_view(out@[j]));
        assert(ptrs_view(out@) =~= (*old(stack))@.skip((*old(stack))@.len() - n));
    }
    out
}

/// Charges the element-count share of a constructor opcode; a charge
/// past the budget surfaces as running out of gas, with the meter left
/// exactly at the limit.
fn charge_elements(context: &mut Context, count: u64) -> (r: Result<(), VMError>)
    ensures
        match r {
            Ok(()) => {
                &&& old(context).spec_gas_used() + count <= old(context).spec_gas_limit()
                &&& final(context).spec_gas_used() == old(context).spec_gas_used() + count
                &&& final(context).spec_charges() == old(context).spec_charges().push(count)
                &&& old(context).wf() ==> final(context).wf()
            },
            Err(e) => {
                &&& old(context).spec_gas_used() + count > old(context).spec_gas_limit()
                &&& final(context).spec_gas_used() == old(context).spec_gas_limit()
                &&& e == VMError::OutOfGas
            },
        },
        final(context).spec_gas_limit() == old(context).spec_gas_limit(),
{
    match context.increase_gas_usage(count) {
        Ok(()) => Ok(()),
        Err(_) => Err(VMError::OutOfGas),
    }
}

/// Runs `NewArray`: reads the element count, charges that many units,
/// pops that many values, and pushes an array holding them in the order
/// they were pushed. Each fault is tied to its cause and leaves the
/// stack as it was.
pub fn new_array(stack: &mut Stack, manager: &mut ChunkManager, context: &mut Context) -> (r:
    Result<(), VMError>)
    ensures
        final(manager).spec_bytes() == old(manager).spec_bytes(),
        final(manager).spec_locals() == old(manager).spec_locals(),
        final(manager).spec_iterators() == old(manager).spec_iterators(),
        final(context).spec_gas_limit() == old(context).spec_gas_limit(),
        old(context).wf() && r is Ok ==> final(context).wf(),
        r == Err::<(), _>(VMError::OutOfGas) ==> final(context).spec_gas_used() == final(context).spec_gas_limit(),
        r matches Err(e) ==> !(e is Validation) && e != VMError::Terminated,
        old(context).wf() ==> final(context).spec_gas_used() <= final(context).spec_gas_limit()
            && final(context).spec_gas_used() >= old(context).spec_gas_used(),
        old(manager).spec_pc() >= old(manager).spec_bytes().len() ==> r == Err::<(), _>(
            VMError::EndOfChunk,
        ) && *final(stack) == *old(stack) && *final(manager) == *old(manager) && *final(context)
            == *old(context),
        old(manager).spec_pc() < old(manager).spec_bytes().len() ==> {
            let n = old(manager).spec_bytes()[old(manager).spec_pc()] as int;
            let len = (*old(stack))@.len() as int;
            &&& final(manager).spec_pc() == old(manager).spec_pc() + 1
            &&& (old(context).spec_gas_used() + n > old(context).spec_gas_limit() ==> r == Err::<
                (),
                _,
            >(VMError::OutOfGas) && final(context).spec_gas_used() == old(
                context,
            ).spec_gas_limit() && *final(stack) == *old(stack))
            &&& (old(context).spec_gas_used() + n <= old(context).spec_gas_limit() ==> {
                &&& final(context).spec_gas_used() == old(context).spec_gas_used() + n
                &&& final(context).spec_charges() == old(context).spec_charges().push(n as u64)
                &&& (len < n ==> r == Err::<(), _>(VMError::StackUnderflow) && *final(stack)
                    == *old(stack))
                &&& (len >= n && len - n >= spec_stack_capacity() ==> r == Err::<(), _>(
                    VMError::StackOverflow,
                ) && *final(stack) == *old(stack))
                &&& (len >= n && len - n < spec_stack_capacity() ==> r == Ok::<_, VMError>(())
                    && (*final(stack))@ =~= (*old(stack))@.take(len - n).push(
                    PtrV::Owned(Box::new(CellRt::Array((*old(stack))@.skip(len - n)))),
                ))
            })
        },
{
    let n = match manager.read_u8() {
        Ok(n) => n,
        Err(e) => {
            return Err(e);
        },
    };
    match charge_elements(context, n as u64) {
        Ok(()) => {},
        Err(e) => {
            return Err(e);
        },
    }
    if stack.len() < n as usize {
        return Err(VMError::StackUnderflow);
    }
    if stack.len() - n as usize >= 256 {
        return Err(VMError::StackOverflow);
    }
    let elems = pop_count(stack, n as usize);
    let ghost ev = ptrs_view(elems@);
    let cell = ValueCell::Array(elems);
    proof {
        assert(cell@ == CellRt::Array(ev));
    }
    let ghost cv = cell@;
    let p = ValuePointer::owned(cell);
    proof {
        assert(p@ == PtrV::Owned(Box::new(cv)));
    }
    stack.push_stack_unchecked(p);
    Ok(())
}

/// The field count the struct id names, in the module first, then in
/// the environment.
fn struct_field_count(module: &Module, environment: &Environment, id: u16) -> (r: Option<usize>)
    ensures
        match r {
            Some(k) => crate::validator::spec_resolve_struct(
                module.structs@,
                environment.spec_structures(),
                id,
            ) matches Some(schema) && k == schema.len(),
            None => crate::validator::spec_resolve_struct(
                module.structs@,
                environment.spec_structures(),
                id,
            ) is None,
        },
{
    if (id as usize) < module.structs.len() {
        Some(module.structs[id as usize].fields.len())
    } else {
        match environment.get_structure(id) {
            Some(schema) => Some(schema.fields.len()),
            None => None,
        }
    }
}

/// Runs `NewStruct`: reads the struct id, resolves its schema, charges
/// one unit per field, pops one value per field, and pushes the struct
/// with its fields in the order they were pushed. Each fault is tied to
/// its cause and leaves the stack as it was.
pub fn new_struct(
    module: &Module,
    environment: &Environment,
    stack: &mut Stack,
    manager: &mut ChunkManager,
    context: &mut Context,
) -> (r: Result<(), VMError>)
    ensures
        final(manager).spec_bytes() == old(manager).spec_bytes(),
        final(manager).spec_locals() == old(manager).spec_locals(),
        final(manager).spec_iterators() == old(manager).spec_iterators(),
        final(context).spec_gas_limit() == old(context).spec_gas_limit(),
        old(context).wf() && r is Ok ==> final(context).wf(),
        r == Err::<(), _>(VMError::OutOfGas) ==> final(context).spec_gas_used() == final(context).spec_gas_limit(),
        r matches Err(e) ==> !(e is Validation) && e != VMError::Terminated,
        old(context).wf() ==> final(context).spec_gas_used() <= final(context).spec_gas_limit()
            && final(context).spec_gas_used() >= old(context).spec_gas_used(),
        old(manager).spec_pc() + 2 > old(manager).spec_bytes().len() ==> r == Err::<(), _>(
            VMError::EndOfChunk,
        ) && *final(stack) == *old(stack) && *final(manager) == *old(manager) && *final(context)
            == *old(context),
        old(manager).spec_pc() + 2 <= old(manager).spec_bytes().len() ==> {
            let id = (old(manager).spec_bytes()[old(manager).spec_pc()] + 256 * old(
                manager,
            ).spec_bytes()[old(manager).spec_pc() + 1]) as u16;
            let len = (*old(stack))@.len() as int;
            &&& final(manager).spec_pc() == old(manager).spec_pc() + 2
            &&& (crate::validator::spec_resolve_struct(
                module.structs@,
                environment.spec_structures(),
                id,
            ) is None ==> r == Err::<(), _>(VMError::StructNotFound) && *final(stack) == *old(
                stack,
            ) && *final(context) == *old(context))
            &&& (crate::validator::spec_resolve_struct(
                module.structs@,
                environment.spec_structures(),
                id,
            ) matches Some(schema) ==> {
                let k = schema.len() as int;
                &&& (old(context).spec_gas_used() + k > old(context).spec_gas_limit() ==> r
                    == Err::<(), _>(VMError::OutOfGas) && final(context).spec_gas_used() == old(
                    context,
                ).spec_gas_limit() && *final(stack) == *old(stack))
                &&& (old(context).spec_gas_used() + k <= old(context).spec_gas_limit() ==> {
                    &&& final(context).spec_gas_used() == old(context).spec_gas_used() + k
                    &&& final(context).spec_charges() == old(context).spec_charges().push(
                        k as u64,
                    )
                    &&& (len < k ==> r == Err::<(), _>(VMError::StackUnderflow) && *final(stack)
                        == *old(stack))
                    &&& (len >= k && len - k >= spec_stack_capacity() ==> r == Err::<(), _>(
                        VMError::StackOverflow,
                    ) && *final(stack) == *old(stack))
                    &&& (len >= k && len - k < spec_stack_capacity() ==> r == Ok::<_, VMError>(())
                        && (*final(stack))@ =~= (*old(stack))@.take(len - k).push(
                        PtrV::Owned(Box::new(CellRt::Struct((*old(stack))@.skip(len - k), id))),
                    ))
                })
            })
        },
{
    let id = match manager.read_u16() {
        Ok(id) => id,
        Err(e) => {
            return Err(e);
        },
    };
    let count = match struct_field_count(module, environment, id) {
        Some(k) => k,
        None => {
            return Err(VMError::StructNotFound);
        },
    };
    match charge_elements(context, count as u64) {
        Ok(()) => {},
        Err(e) => {
            return Err(e);
        },
    }
    if stack.len() < count {
        return Err(VMError::StackUnderflow);
    }
    if stack.len() - count >= 256 {
        return Err(VMError::StackOverflow);
    }
    let fields = pop_count(stack, count);
    let ghost ev = ptrs_view(fields@);
    let cell = ValueCell::Struct(fields, id);
    proof {
        assert(cell@ == CellRt::Struct(ev, id));
    }
    let ghost cv = cell@;
    let p = ValuePointer::owned(cell);
    proof {
        assert(p@ == PtrV::Owned(Box::new(cv)));
    }
    stack.push_stack_unchecked(p);
    Ok(())
}

/// What `NewRange` leaves for two popped endpoint pointers: the range
/// when both resolve to numbers of one type, and the fault otherwise,
/// checked in the order the machine checks them.
pub open spec fn spec_range_outcome(
    start: PtrV,
    end: PtrV,
    cells: Seq<Option<CellRt>>,
) -> Result<ValueV, VMError> {
    match (resolve_cell(end, cells), resolve_cell(start, cells)) {
        (None, _) => Err(VMError::ValueError(ValueError::WeakValue)),
        (Some(_), None) => Err(VMError::ValueError(ValueError::WeakValue)),
        (Some(ec), Some(sc)) => match (ec, sc) {
            (CellRt::Prim(e), CellRt::Prim(s)) => {
                if numeric_of(s) is None || numeric_of(e) is None {
                    Err(VMError::InvalidRangeType)
                } else if spec_type_of(s) != spec_type_of(e) {
                    Err(VMError::InvalidRangeType)
                } else {
                    Ok(ValueV::Range(Box::new(s), Box::new(e), spec_type_of(s).unwrap()))
                }
            },
            _ => Err(VMError::InvalidRangeType),
        },
    }
}

/// Runs `NewRange`: pops the end, then the start; both must be numbers
/// of one type; pushes the range of that type. Each fault is tied to
/// its cause; the two operands are consumed once popped.
pub fn new_range(stack: &mut Stack, cells: &SharedCells, context: &mut Context) -> (r: Result<
    (),
    VMError,
>)
    ensures
        final(context).spec_gas_limit() == old(context).spec_gas_limit(),
        old(context).wf() && r is Ok ==> final(context).wf(),
        r == Err::<(), _>(VMError::OutOfGas) ==> final(context).spec_gas_used() == final(context).spec_gas_limit(),
        r matches Err(e) ==> !(e is Validation) && e != VMError::Terminated,
        old(context).wf() ==> final(context).spec_gas_used() <= final(context).spec_gas_limit()
            && final(context).spec_gas_used() >= old(context).spec_gas_used(),
        old(context).spec_gas_used() + 2 > old(context).spec_gas_limit() ==> r == Err::<(), _>(
            VMError::OutOfGas,
        ) && final(context).spec_gas_used() == old(context).spec_gas_limit() && *final(stack)
            == *old(stack),
        old(context).spec_gas_used() + 2 <= old(context).spec_gas_limit() ==> {
            let len = (*old(stack))@.len() as int;
            &&& final(context).spec_gas_used() == old(context).spec_gas_used() + 2
            &&& final(context).spec_charges() == old(context).spec_charges().push(2)
            &&& (len < 2 ==> r == Err::<(), _>(VMError::StackUnderflow) && *final(stack) == *old(
                stack,
            ))
            &&& (len >= 2 && len - 2 >= spec_stack_capacity() ==> r == Err::<(), _>(
                VMError::StackOverflow,
            ) && *final(stack) == *old(stack))
            &&& (len >= 2 && len - 2 < spec_stack_capacity() ==> {
                let start = (*old(stack))@[len - 2];
                let end = (*old(stack))@[len - 1];
                match spec_range_outcome(start, end, cells@) {
                    Ok(v) => r == Ok::<_, VMError>(()) && (*final(stack))@ =~= (*old(
                        stack,
                    ))@.take(len - 2).push(PtrV::Owned(Box::new(CellRt::Prim(v)))),
                    Err(e) => r == Err::<(), _>(e) && (*final(stack))@ =~= (*old(stack))@.take(
                        len - 2,
                    ),
                }
            })
        },
{
    match charge_elements(context, 2) {
        Ok(()) => {},
        Err(e) => {
            return Err(e);
        },
    }
    if stack.len() < 2 {
        return Err(VMError::StackUnderflow);
    }
    if stack.len() - 2 >= 256 {
        return Err(VMError::StackOverflow);
    }
    let end_ptr = match stack.pop_stack() {
        Ok(p) => p,
        Err(_) => unreached(),
    };
    let start_ptr = match stack.pop_stack() {
        Ok(p) => p,
        Err(_) => unreached(),
    };
    let ghost ep = end_ptr@;
    let ghost sp = start_ptr@;
    let end_cell = match end_ptr.into_value(cells) {
        Ok(c) => c,
        Err(_) => {
            return Err(VMError::ValueError(ValueError::WeakValue));
        },
    };
    let start_cell = match start_ptr.into_value(cells) {
        Ok(c) => c,
        Err(_) => {
            return Err(VMError::ValueError(ValueError::WeakValue));
        },
    };
    let end = match end_cell {
        ValueCell::Default(v) => v,
        _ => {
            return Err(VMError::InvalidRangeType);
        },
    };
    let start = match start_cell {
        ValueCell::Default(v) => v,
        _ => {
            return Err(VMError::InvalidRangeType);
        },
    };
    if !start.is_number() || !end.is_number() {
        return Err(VMError::InvalidRangeType);
    }
    let start_type = match start.get_type() {
        Ok(t) => t,
        Err(_) => unreached(),
    };
    let end_type = match end.get_type() {
        Ok(t) => t,
        Err(_) => unreached(),
    };
    if !start_type.eq(&end_type) {
        return Err(VMError::InvalidRangeType);
    }
    let value = Value::Range(Box::new(start), Box::new(end), start_type);
    let ghost vv = value@;
    let cell = ValueCell::Default(value);
    proof {
        assert(cell@ == CellRt::Prim(vv));
    }
    let ghost cv = cell@;
    let p = ValuePointer::owned(cell);
    proof {
        assert(p@ == PtrV::Owned(Box::new(cv)));
    }
    stack.push_stack_unchecked(p);
    Ok(())
}

/// Whether a key occurs among runtime map entries.
pub open spec fn spec_rt_has_key(entries: Seq<(CellV, PtrV)>, key: CellV) -> bool {
    exists|i: int| 0 <= i < entries.len() && entries[i].0 == key
}

/// A well-formed runtime map: its keys are pairwise distinct and none
/// of them is itself a map.
pub open spec fn spec_rt_map_wf(entries: Seq<(CellV, PtrV)>) -> bool {
    &&& forall|i: int, j: int| 0 <= i < j < entries.len() ==> entries[i].0 != entries[j].0
    &&& forall|i: int| 0 <= i < entries.len() ==> !(#[trigger] entries[i].0 is Mapping)
}

/// Writing a key into map entries: an existing key keeps its place and
/// takes the new value, a new key goes to the end.
pub open spec fn spec_rt_insert(entries: Seq<(CellV, PtrV)>, k: CellV, v: PtrV) -> Seq<
    (CellV, PtrV),
>
    decreases entries.len(),
{
    if entries.len() == 0 {
        seq![(k, v)]
    } else if entries[0].0 == k {
        seq![(k, v)] + entries.drop_first()
    } else {
        seq![entries[0]] + spec_rt_insert(entries.drop_first(), k, v)
    }
}

/// The map entries `NewMap` builds from the popped stack slice: pairs
/// are taken top-down, each pair popping the value and then the key;
/// the key must resolve to a fully owned plain value that is not a map;
/// the last writer wins a repeated key.
pub open spec fn spec_map_pairs(
    s: Seq<PtrV>,
    cells: Seq<Option<CellRt>>,
    acc: Seq<(CellV, PtrV)>,
) -> Result<Seq<(CellV, PtrV)>, VMError>
    decreases s.len(),
{
    if s.len() < 2 {
        Ok(acc)
    } else {
        let value = s.last();
        let keyp = s[s.len() - 2];
        match resolve_cell(keyp, cells) {
            None => Err(VMError::ValueError(ValueError::WeakValue)),
            Some(c) => match rt_plain(c) {
                None => Err(VMError::ValueError(ValueError::SharedValue)),
                Some(k) => if k is Mapping {
                    Err(VMError::EnvironmentError(EnvironmentError::InvalidKeyType))
                } else {
                    spec_map_pairs(s.take(s.len() - 2), cells, spec_rt_insert(acc, k, value))
                },
            },
        }
    }
}

/// Writes a key into runtime map entries: an existing key keeps its
/// place and takes the new value, a new key goes to the end; the last
/// writer wins, and the entries stay in first-insertion order.
pub fn rt_map_insert(
    entries: &mut Vec<(ValueType, ValuePointer)>,
    key: ValueType,
    value: ValuePointer,
)
    ensures
        rt_pairs_view((*final(entries))@) == spec_rt_insert(
            rt_pairs_view((*old(entries))@),
            key@,
            value@,
        ),
        !spec_rt_has_key(rt_pairs_view((*old(entries))@), key@) ==> rt_pairs_view(
            (*final(entries))@,
        ) =~= rt_pairs_view((*old(entries))@).push((key@, value@)),
        spec_rt_has_key(rt_pairs_view((*old(entries))@), key@) ==> {
            &&& rt_pairs_view((*final(entries))@).len() == rt_pairs_view(
                (*old(entries))@,
            ).len()
            &&& exists|i: int|
                {
                    &&& 0 <= i < rt_pairs_view((*old(entries))@).len()
                    &&& rt_pairs_view((*old(entries))@)[i].0 == key@
                    &&& #[trigger] rt_pairs_view((*final(entries))@)[i] == (key@, value@)
                    &&& forall|j: int|
                        0 <= j < rt_pairs_view((*old(entries))@).len() && j != i
                            ==> #[trigger] rt_pairs_view((*final(entries))@)[j] == rt_pairs_view(
                            (*old(entries))@,
                        )[j]
                }
        },
{
    let ghost ev = rt_pairs_view(entries@);
    let ghost kv = key@;
    let ghost vv = value@;
    proof {
        assert(ev.take(0) =~= Seq::empty());
        assert(ev.skip(0) =~= ev);
        assert(Seq::empty() + spec_rt_insert(ev, kv, vv) =~= spec_rt_insert(ev, kv, vv));
    }
    let mut i: usize = 0;
    while i < entries.len()
        invariant
            i <= entries@.len(),
            *entries == *old(entries),
            ev == rt_pairs_view(entries@),
            kv == key@,
            vv == value@,
            forall|j: int| 0 <= j < i ==> #[trigger] ev[j].0 != key@,
            spec_rt_insert(ev, kv, vv) == ev.take(i as int) + spec_rt_insert(
                ev.skip(i as int),
                kv,
                vv,
            ),
        decreases entries@.len() - i,
    {
        proof {
            assert(ev[i as int] == (
                crate::value_type::cell_view(entries@[i as int].0),
                crate::cells::ptr_view(entries@[i as int].1),
            ));
            assert(ev.skip(i as int)[0] == ev[i as int]);
            assert(ev.skip(i as int).drop_first() =~= ev.skip(i as int + 1));
        }
        if crate::value_type::cells_equal(&entries[i].0, &key) {
            let ghost prev = entries@;
            let ghost idx = i as int;
            entries[i] = (key, value);
            proof {
                assert(rt_pairs_view(entries@).len() == entries@.len());
                assert(rt_pairs_view(prev).len() == prev.len());
                assert(rt_pairs_view(entries@)[idx] == (kv, vv));
                assert(forall|j: int|
                    0 <= j < prev.len() && j != idx ==> #[trigger] rt_pairs_view(entries@)[j]
                        == rt_pairs_view(prev)[j]);
                assert(spec_rt_insert(ev.skip(idx), kv, vv) =~= seq![(kv, vv)] + ev.skip(idx + 1));
                assert(rt_pairs_view(entries@) =~= ev.take(idx) + (seq![(kv, vv)] + ev.skip(
                    idx + 1,
                )));
            }
            return ;
        }
        proof {
            assert(spec_rt_insert(ev.skip(i as int), kv, vv) == seq![ev[i as int]]
                + spec_rt_insert(ev.skip(i as int + 1), kv, vv));
            assert(ev.take(i as int) + (seq![ev[i as int]] + spec_rt_insert(
                ev.skip(i as int + 1),
                kv,
                vv,
            )) =~= ev.take(i as int + 1) + spec_rt_insert(ev.skip(i as int + 1), kv, vv));
        }
        i += 1;
    }
    entries.push((key, value));
    proof {
        assert(rt_pairs_view(entries@).len() == entries@.len());
        assert(rt_pairs_view(old(entries)@).len() == old(entries)@.len());
        assert(rt_pairs_view(entries@)[old(entries)@.len() as int] == (kv, vv));
        assert(forall|j: int|
            0 <= j < old(entries)@.len() ==> #[trigger] rt_pairs_view(entries@)[j]
                == rt_pairs_view(old(entries)@)[j]);
        assert(rt_pairs_view(entries@) =~= rt_pairs_view(old(entries)@).push((kv, vv)));
        assert(ev.skip(ev.len() as int) =~= Seq::empty());
        assert(spec_rt_insert(Seq::empty(), kv, vv) =~= seq![(kv, vv)]);
        assert(ev.take(ev.len() as int) =~= ev);
        assert(rt_pairs_view(entries@) =~= ev + seq![(kv, vv)]);
        assert(rt_pairs_view(entries@) =~= ev.take(ev.len() as int) + spec_rt_insert(
            ev.skip(ev.len() as int),
            kv,
            vv,
        ));
    }
}

/// Runs `NewMap`: reads the pair count, charges that many units; for
/// each pair pops the value, then the key; a key must be a fully owned
/// plain value and never a map; pushes the map whose entries are the
/// popped pairs in first-push order, the last writer winning a repeated
/// key. Each fault is tied to its cause.
pub fn new_map(
    stack: &mut Stack,
    manager: &mut ChunkManager,
    cells: &SharedCells,
    context: &mut Context,
) -> (r: Result<(), VMError>)
    ensures
        final(manager).spec_bytes() == old(manager).spec_bytes(),
        final(manager).spec_locals() == old(manager).spec_locals(),
        final(manager).spec_iterators() == old(manager).spec_iterators(),
        final(context).spec_gas_limit() == old(context).spec_gas_limit(),
        old(context).wf() && r is Ok ==> final(context).wf(),
        r == Err::<(), _>(VMError::OutOfGas) ==> final(context).spec_gas_used() == final(context).spec_gas_limit(),
        r matches Err(e) ==> !(e is Validation) && e != VMError::Terminated,
        old(context).wf() ==> final(context).spec_gas_used() <= final(context).spec_gas_limit()
            && final(context).spec_gas_used() >= old(context).spec_gas_used(),
        old(manager).spec_pc() >= old(manager).spec_bytes().len() ==> r == Err::<(), _>(
            VMError::EndOfChunk,
        ) && *final(stack) == *old(stack) && *final(manager) == *old(manager) && *final(context)
            == *old(context),
        old(manager).spec_pc() < old(manager).spec_bytes().len() ==> {
            let n = old(manager).spec_bytes()[old(manager).spec_pc()] as int;
            let len = (*old(stack))@.len() as int;
            &&& final(manager).spec_pc() == old(manager).spec_pc() + 1
            &&& (old(context).spec_gas_used() + n > old(context).spec_gas_limit() ==> r == Err::<
                (),
                _,
            >(VMError::OutOfGas) && final(context).spec_gas_used() == old(
                context,
            ).spec_gas_limit() && *final(stack) == *old(stack))
            &&& (old(context).spec_gas_used() + n <= old(context).spec_gas_limit() ==> {
                &&& final(context).spec_gas_used() == old(context).spec_gas_used() + n
                &&& final(context).spec_charges() == old(context).spec_charges().push(n as u64)
                &&& (len < 2 * n ==> r == Err::<(), _>(VMError::StackUnderflow) && *final(stack)
                    == *old(stack))
                &&& (len >= 2 * n && len - 2 * n >= spec_stack_capacity() ==> r == Err::<(), _>(
                    VMError::StackOverflow,
                ) && *final(stack) == *old(stack))
                &&& (len >= 2 * n && len - 2 * n < spec_stack_capacity() ==> match spec_map_pairs(
                    (*old(stack))@.skip(len - 2 * n),
                    cells@,
                    Seq::empty(),
                ) {
                    Ok(m) => {
                        &&& r == Ok::<_, VMError>(())
                        &&& (*final(stack))@ =~= (*old(stack))@.take(len - 2 * n).push(
                            PtrV::Owned(Box::new(CellRt::Mapping(m))),
                        )
                        &&& spec_rt_map_wf(m)
                    },
                    Err(e) => {
                        &&& r == Err::<(), _>(e)
                        &&& (*final(stack))@.len() <= len
                        &&& (*final(stack))@ =~= (*old(stack))@.take((*final(stack))@.len() as int)
                    },
                })
            })
        },
{
    let n = match manager.read_u8() {
        Ok(n) => n,
        Err(e) => {
            return Err(e);
        },
    };
    match charge_elements(context, n as u64) {
        Ok(()) => {},
        Err(e) => {
            return Err(e);
        },
    }
    if stack.len() < 2 * n as usize {
        return Err(VMError::StackUnderflow);
    }
    if stack.len() - 2 * n as usize >= 256 {
        return Err(VMError::StackOverflow);
    }
    let ghost len0 = (*old(stack))@.len() as int;
    let ghost slice = stack@.skip(stack@.len() - 2 * n as int);
    proof {
        assert(slice.take(slice.len() - 0) =~= slice);
    }
    let mut entries: Vec<(ValueType, ValuePointer)> = Vec::new();
    proof {
        assert(rt_pairs_view(entries@) =~= Seq::empty());
    }
    let mut i: usize = 0;
    while i < n as usize
        invariant
            i <= n as usize,
            len0 == (*old(stack))@.len() as int,
            len0 >= 2 * (n as int),
            len0 - 2 * (n as int) < spec_stack_capacity(),
            old(manager).spec_pc() < old(manager).spec_bytes().len(),
            n == old(manager).spec_bytes()[old(manager).spec_pc()],
            manager.spec_bytes() == old(manager).spec_bytes(),
            manager.spec_locals() == old(manager).spec_locals(),
            manager.spec_iterators() == old(manager).spec_iterators(),
            manager.spec_pc() == old(manager).spec_pc() + 1,
            old(context).spec_gas_used() + n <= old(context).spec_gas_limit(),
            context.spec_gas_used() == old(context).spec_gas_used() + n,
            context.spec_charges() == old(context).spec_charges().push(n as u64),
            context.spec_gas_limit() == old(context).spec_gas_limit(),
            old(context).wf() ==> context.wf(),
            slice.len() == 2 * n as int,
            stack@.len() == len0 - 2 * i,
            stack@ =~= (*old(stack))@.take(len0 - 2 * i),
            slice =~= (*old(stack))@.skip(len0 - 2 * n as int),
            spec_rt_map_wf(rt_pairs_view(entries@)),
            spec_map_pairs(slice, cells@, Seq::empty()) == spec_map_pairs(
                slice.take(slice.len() - 2 * i),
                cells@,
                rt_pairs_view(entries@),
            ),
        decreases n as int - i,
    {
        let ghost sub = slice.take(slice.len() - 2 * i);
        proof {
            assert(sub.len() == 2 * (n as int - i) >= 2);
            assert(sub.last() == (*old(stack))@[len0 - 2 * i - 1]);
            assert(sub[sub.len() - 2] == (*old(stack))@[len0 - 2 * i - 2]);
            assert(stack@.last() == (*old(stack))@[len0 - 2 * i - 1]);
        }
        let value = match stack.pop_stack() {
            Ok(p) => p,
            Err(_) => unreached(),
        };
        let key_ptr = match stack.pop_stack() {
            Ok(p) => p,
            Err(_) => unreached(),
        };
        let ghost vv = value@;
        let ghost kpv = key_ptr@;
        proof {
            assert(vv == sub.last());
            assert(kpv == sub[sub.len() - 2]);
        }
        let ghost acc0 = rt_pairs_view(entries@);
        let key_cell = match key_ptr.into_value(cells) {
            Ok(c) => c,
            Err(_) => {
                proof {
                    assert(resolve_cell(kpv, cells@) is None);
                    assert(spec_map_pairs(sub, cells@, acc0) == Err::<Seq<(CellV, PtrV)>, _>(
                        VMError::ValueError(ValueError::WeakValue),
                    ));
                    assert(stack@ =~= (*old(stack))@.take(stack@.len() as int));
                }
                return Err(VMError::ValueError(ValueError::WeakValue));
            },
        };
        proof {
            assert(resolve_cell(kpv, cells@) == Some(key_cell@));
        }
        let ghost kcv = key_cell@;
        let key = match key_cell.to_plain() {
            Ok(k) => k,
            Err(_) => {
                proof {
                    assert(rt_plain(kcv) is None);
                    assert(spec_map_pairs(sub, cells@, acc0) == Err::<Seq<(CellV, PtrV)>, _>(
                        VMError::ValueError(ValueError::SharedValue),
                    ));
                    assert(stack@ =~= (*old(stack))@.take(stack@.len() as int));
                }
                return Err(VMError::ValueError(ValueError::SharedValue));
            },
        };
        let ghost kv = key@;
        proof {
            assert(rt_plain(kcv) == Some(kv));
        }
        if key.is_map() {
            proof {
                assert(kv is Mapping);
                assert(spec_map_pairs(sub, cells@, acc0) == Err::<Seq<(CellV, PtrV)>, _>(
                    VMError::EnvironmentError(EnvironmentError::InvalidKeyType),
                ));
                assert(stack@ =~= (*old(stack))@.take(stack@.len() as int));
            }
            return Err(VMError::EnvironmentError(EnvironmentError::InvalidKeyType));
        }
        proof {
            assert(spec_map_pairs(sub, cells@, acc0) == spec_map_pairs(
                sub.take(sub.len() - 2),
                cells@,
                spec_rt_insert(acc0, kv, vv),
            ));
        }
        rt_map_insert(&mut entries, key, value);
        proof {
            if spec_rt_has_key(acc0, kv) {
                assert(forall|j: int|
                    0 <= j < acc0.len() ==> #[trigger] rt_pairs_view(entries@)[j].0 == acc0[j].0);
            }
            assert(spec_rt_map_wf(rt_pairs_view(entries@)));
            assert(sub.take(sub.len() - 2) =~= slice.take(slice.len() - 2 * (i + 1)));
        }
        i += 1;
    }
    proof {
        assert(slice.take(slice.len() - 2 * n as int) =~= Seq::empty());
        assert(spec_map_pairs(slice, cells@, Seq::empty()) == Ok::<_, VMError>(
            rt_pairs_view(entries@),
        ));
    }
    let cell = ValueCell::Mapping(entries);
    proof {
        assert(cell@ is Mapping);
    }
    let ghost cv = cell@;
    let p = ValuePointer::owned(cell);
    proof {
        assert(p@ == PtrV::Owned(Box::new(cv)));
    }
    stack.push_stack_unchecked(p);
    Ok(())
}

/// The field count of a variant of the enum an id names.
fn enum_variant_field_count(
    module: &Module,
    environment: &Environment,
    id: u16,
    variant_id: u8,
) -> (r: Result<usize, VMError>)
    ensures
        match r {
            Ok(k) => crate::validator::spec_resolve_enum(
                module.enums@,
                environment.spec_enums(),
                id,
            ) matches Some(variants) && variant_id < variants.len() && k == variants[
                variant_id as int
            ].len(),
            Err(e) => match crate::validator::spec_resolve_enum(
                module.enums@,
                environment.spec_enums(),
                id,
            ) {
                None => e == VMError::EnumNotFound,
                Some(variants) => variant_id >= variants.len() && e == VMError::InvalidEnumVariant,
            },
        },
{
    if (id as usize) < module.enums.len() {
        let schema = &module.enums[id as usize];
        if (variant_id as usize) < schema.variants.len() {
            proof {
                assert(crate::types::variants_view(schema.variants@)[variant_id as int]
                    == schema.variants@[variant_id as int].fields@);
            }
            Ok(schema.variants[variant_id as usize].fields.len())
        } else {
            Err(VMError::InvalidEnumVariant)
        }
    } else {
        match environment.get_enum(id) {
            Some(schema) => {
                if (variant_id as usize) < schema.variants.len() {
                    proof {
                        assert(crate::types::variants_view(schema.variants@)[variant_id as int]
                            == schema.variants@[variant_id as int].fields@);
                    }
                    Ok(schema.variants[variant_id as usize].fields.len())
                } else {
                    Err(VMError::InvalidEnumVariant)
                }
            },
            None => Err(VMError::EnumNotFound),
        }
    }
}

/// Runs `NewEnum`: reads the enum id and variant id, resolves the
/// variant, charges one unit per field, pops one value per field, and
/// pushes the enum value with its fields in the order they were pushed.
/// Each fault is tied to its cause and leaves the stack as it was.
pub fn new_enum(
    module: &Module,
    environment: &Environment,
    stack: &mut Stack,
    manager: &mut ChunkManager,
    context: &mut Context,
) -> (r: Result<(), VMError>)
    ensures
        final(manager).spec_bytes() == old(manager).spec_bytes(),
        final(manager).spec_locals() == old(manager).spec_locals(),
        final(manager).spec_iterators() == old(manager).spec_iterators(),
        final(context).spec_gas_limit() == old(context).spec_gas_limit(),
        old(context).wf() && r is Ok ==> final(context).wf(),
        r == Err::<(), _>(VMError::OutOfGas) ==> final(context).spec_gas_used() == final(context).spec_gas_limit(),
        r matches Err(e) ==> !(e is Validation) && e != VMError::Terminated,
        old(context).wf() ==> final(context).spec_gas_used() <= final(context).spec_gas_limit()
            && final(context).spec_gas_used() >= old(context).spec_gas_used(),
        old(manager).spec_pc() + 3 > old(manager).spec_bytes().len() ==> r == Err::<(), _>(
            VMError::EndOfChunk,
        ) && *final(stack) == *old(stack) && *final(context) == *old(context),
        old(manager).spec_pc() + 3 <= old(manager).spec_bytes().len() ==> {
            let id = (old(manager).spec_bytes()[old(manager).spec_pc()] + 256 * old(
                manager,
            ).spec_bytes()[old(manager).spec_pc() + 1]) as u16;
            let variant_id = old(manager).spec_bytes()[old(manager).spec_pc() + 2];
            let len = (*old(stack))@.len() as int;
            &&& final(manager).spec_pc() == old(manager).spec_pc() + 3
            &&& (crate::validator::spec_resolve_enum(
                module.enums@,
                environment.spec_enums(),
                id,
            ) is None ==> r == Err::<(), _>(VMError::EnumNotFound) && *final(stack) == *old(stack)
                && *final(context) == *old(context))
            &&& (crate::validator::spec_resolve_enum(
                module.enums@,
                environment.spec_enums(),
                id,
            ) matches Some(variants) ==> {
                &&& (variant_id >= variants.len() ==> r == Err::<(), _>(
                    VMError::InvalidEnumVariant,
                ) && *final(stack) == *old(stack) && *final(context) == *old(context))
                &&& (variant_id < variants.len() ==> {
                    let k = variants[variant_id as int].len() as int;
                    &&& (old(context).spec_gas_used() + k > old(context).spec_gas_limit() ==> r
                        == Err::<(), _>(VMError::OutOfGas) && final(context).spec_gas_used()
                        == old(context).spec_gas_limit() && *final(stack) == *old(stack))
                    &&& (old(context).spec_gas_used() + k <= old(context).spec_gas_limit() ==> {
                        &&& final(context).spec_gas_used() == old(context).spec_gas_used() + k
                        &&& final(context).spec_charges() == old(context).spec_charges().push(
                            k as u64,
                        )
                        &&& (len < k ==> r == Err::<(), _>(VMError::StackUnderflow)
                            && *final(stack) == *old(stack))
                        &&& (len >= k && len - k >= spec_stack_capacity() ==> r == Err::<(), _>(
                            VMError::StackOverflow,
                        ) && *final(stack) == *old(stack))
                        &&& (len >= k && len - k < spec_stack_capacity() ==> r == Ok::<
                            _,
                            VMError,
                        >(()) && (*final(stack))@ =~= (*old(stack))@.take(len - k).push(
                            PtrV::Owned(
                                Box::new(
                                    CellRt::Enum(
                                        (*old(stack))@.skip(len - k),
                                        EnumValueId { enum_id: id, variant_id },
                                    ),
                                ),
                            ),
                        ))
                    })
                })
            })
        },
{
    let id = match manager.read_u16() {
        Ok(id) => id,
        Err(e) => {
            return Err(e);
        },
    };
    let variant_id = match manager.read_u8() {
        Ok(v) => v,
        Err(e) => {
            return Err(e);
        },
    };
    let count = match enum_variant_field_count(module, environment, id, variant_id) {
        Ok(k) => k,
        Err(e) => {
            return Err(e);
        },
    };
    match charge_elements(context, count as u64) {
        Ok(()) => {},
        Err(e) => {
            return Err(e);
        },
    }
    if stack.len() < count {
        return Err(VMError::StackUnderflow);
    }
    if stack.len() - count >= 256 {
        return Err(VMError::StackOverflow);
    }
    let fields = pop_count(stack, count);
    let ghost ev = ptrs_view(fields@);
    let cell = ValueCell::Enum(fields, EnumValueId { enum_id: id, variant_id });
    proof {
        assert(cell@ == CellRt::Enum(ev, EnumValueId { enum_id: id, variant_id }));
    }
    let ghost cv = cell@;
    let p = ValuePointer::owned(cell);
    proof {
        assert(p@ == PtrV::Owned(Box::new(cv)));
    }
    stack.push_stack_unchecked(p);
    Ok(())
}

} // verus!
