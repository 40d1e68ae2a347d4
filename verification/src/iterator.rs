use vstd::prelude::*;

use crate::cells::{
    ptrs_view, resolve_cell, slot_live, CellRt, PtrV, SharedCells, ValueCell, ValuePointer,
    ValuePointerInner,
};
use crate::errors::ValueError;
use crate::values::{numeric_of, spec_type_of, Value, ValueV};

verus! {

broadcast use vstd::group_vstd_default;

/// How many elements an iteration has left: the distance to the end of
/// a range, or the indexes left in an array.
pub open spec fn spec_range_count(index: int, end: int) -> int {
    if index < end {
        end - index
    } else {
        0
    }
}

/// Stepping once from inside a range leaves one element fewer; from its
/// end, none were left. Together with the stepping contract below, a
/// whole iteration over a range yields exactly `end - start` elements
/// when `start <= end`, and none otherwise.
pub proof fn lemma_range_count_step(index: int, end: int)
    ensures
        index < end ==> spec_range_count(index, end) == 1 + spec_range_count(index + 1, end),
        index >= end ==> spec_range_count(index, end) == 0,
{
}

/// Stepping once from inside an array leaves one index fewer; from its
/// end, none were left. Together with the stepping contract below, a
/// whole iteration over an array of length `n` yields exactly `n`
/// elements, in index order.
pub proof fn lemma_array_count_step(index: int, len: int)
    ensures
        index < len ==> spec_range_count(index, len) == 1 + spec_range_count(index + 1, len),
        index >= len ==> spec_range_count(index, len) == 0,
{
}

/// Walks the elements of an array or the integers of a range. The
/// iterator holds the container and the next position; an array element
/// is yielded as a shared handle into the live array, a range element
/// as a fresh owned integer.
pub struct PathIterator {
    inner: ValuePointer,
    index: Value,
}

impl PathIterator {
    pub closed spec fn spec_inner(&self) -> PtrV {
        self.inner@
    }

    pub closed spec fn spec_index(&self) -> ValueV {
        self.index@
    }

    /// Takes the container back out of the iterator.
    pub fn into_inner(self) -> (r: ValuePointer)
        ensures
            r@ == self.spec_inner(),
    {
        self.inner
    }

    /// An iterator over the given value: a range starts at its start
    /// value, an array at index zero. A range whose declared type is
    /// not numeric is a fault.
    pub fn new(inner: ValuePointer, cells: &SharedCells) -> (r: Result<PathIterator, ValueError>)
        ensures
            r matches Ok(it) && {
                &&& it.spec_inner() == inner@
                &&& match resolve_cell(inner@, cells@) {
                    Some(c) => match c {
                        CellRt::Prim(ValueV::Range(st, _, _)) => it.spec_index() == *st,
                        _ => it.spec_index() == ValueV::U32(0),
                    },
                    None => it.spec_index() == ValueV::U32(0),
                }
            },
    {
        let index = match inner.handle(cells) {
            Ok(cell) => match cell {
                ValueCell::Default(Value::Range(start, _, _)) => (**start).clone(),
                _ => Value::U32(0),
            },
            Err(_) => Value::U32(0),
        };
        Ok(PathIterator { inner, index })
    }

    /// The next element: a shared handle to the array element at the
    /// current index, or the current range value as an owned number;
    /// nothing once the index reaches the container's end. Stepping
    /// advances the index by one.
    pub fn next(&mut self, cells: &mut SharedCells) -> (r: Result<Option<ValuePointer>, ValueError>)
        ensures
            spec_iter_step(*old(self), *final(self), (*old(cells))@, (*final(cells))@, r),
    {
        match &mut self.inner.0 {
            ValuePointerInner::Owned(b) => match &mut **b {
                ValueCell::Array(elems) => next_array_element(&mut self.index, elems, cells),
                ValueCell::Default(Value::Range(_, end, _)) => {
                    let e = (**end).clone();
                    next_range_element(&mut self.index, &e)
                },
                _ => Ok(None),
            },
            ValuePointerInner::Shared(i) => {
                let slot = *i;
                if slot < cells.len() && cells.is_live(slot) {
                    let cell = cells.take(slot);
                    match cell {
                        ValueCell::Array(mut elems) => {
                            let r = next_array_element(&mut self.index, &mut elems, cells);
                            cells.put(slot, ValueCell::Array(elems));
                            r
                        },
                        ValueCell::Default(Value::Range(start, end, t)) => {
                            let e = (*end).clone();
                            let r = next_range_element(&mut self.index, &e);
                            cells.put(slot, ValueCell::Default(Value::Range(start, end, t)));
                            proof {
                                assert(cells@ =~= (*old(cells))@);
                            }
                            r
                        },
                        other => {
                            cells.put(slot, other);
                            Ok(None)
                        },
                    }
                } else {
                    Err(ValueError::WeakValue)
                }
            },
        }
    }
}

/// What one iterator step does. A range yields its current value as a
/// fresh owned number and moves up by one, until the index reaches the
/// end; an array yields a shared handle aliasing the element at the
/// current index, which the step materialises as a shared cell if it
/// was owned. A dead shared container is a fault, and a step whose
/// index cannot move past the width of its type is a fault.
pub open spec fn spec_iter_step(
    pre: PathIterator,
    post: PathIterator,
    cells0: Seq<Option<CellRt>>,
    cells1: Seq<Option<CellRt>>,
    r: Result<Option<ValuePointer>, ValueError>,
) -> bool {
    match r {
        Ok(o) => match o {
            Some(p) => match resolve_cell(pre.spec_inner(), cells0) {
                Some(CellRt::Prim(ValueV::Range(st, e, t))) => {
                    &&& numeric_of(pre.spec_index()) matches Some(n)
                    &&& numeric_of(*e) matches Some(ne)
                    &&& n < ne
                    &&& p@ == PtrV::Owned(Box::new(CellRt::Prim(pre.spec_index())))
                    &&& numeric_of(post.spec_index()) == Some(n + 1)
                    &&& cells1 == cells0
                    &&& post.spec_inner() == pre.spec_inner()
                },
                Some(CellRt::Array(elems)) => {
                    &&& numeric_of(pre.spec_index()) matches Some(n)
                    &&& 0 <= n < elems.len()
                    &&& numeric_of(post.spec_index()) == Some(n + 1)
                    &&& match elems[numeric_of(pre.spec_index()).unwrap()] {
                        PtrV::Owned(b) => {
                            &&& p@ == PtrV::Shared(cells0.len() as int)
                            &&& slot_live(cells1, cells0.len() as int)
                            &&& (pre.spec_inner() matches PtrV::Shared(s) ==> cells1
                                =~= cells0.update(
                                s,
                                Some(
                                    CellRt::Array(
                                        elems.update(numeric_of(pre.spec_index()).unwrap(), p@),
                                    ),
                                ),
                            ).push(Some(*b)))
                            &&& (pre.spec_inner() is Owned ==> cells1 =~= cells0.push(Some(*b)))
                        },
                        PtrV::Shared(j) => {
                            &&& p@ == PtrV::Shared(j)
                            &&& cells1 =~= cells0
                        },
                    }
                },
                _ => false,
            },
            None => match resolve_cell(pre.spec_inner(), cells0) {
                Some(CellRt::Prim(ValueV::Range(st, e, t))) => {
                    &&& (match (numeric_of(pre.spec_index()), numeric_of(*e)) {
                        (Some(n), Some(ne)) => n >= ne || spec_type_of(pre.spec_index())
                            != spec_type_of(*e),
                        _ => true,
                    })
                    &&& cells1 == cells0
                    &&& post.spec_index() == pre.spec_index()
                },
                Some(CellRt::Array(elems)) => {
                    &&& (match numeric_of(pre.spec_index()) {
                        Some(n) => n >= elems.len() || n > u32::MAX,
                        None => true,
                    })
                    &&& cells1 =~= cells0
                    &&& post.spec_index() == pre.spec_index()
                },
                _ => cells1 =~= cells0,
            },
        },
        Err(e) => {
            ||| {
                &&& pre.spec_inner() matches PtrV::Shared(i)
                &&& !slot_live(cells0, i)
                &&& e == ValueError::WeakValue
                &&& cells1 == cells0
                &&& post == pre
            }
            ||| {
                &&& e == ValueError::IntegerOverflow
                &&& numeric_of(pre.spec_index()) matches Some(n)
                &&& n == crate::values::spec_type_max(spec_type_of(pre.spec_index()).unwrap())
                &&& cells1 =~= cells0
            }
            ||| {
                &&& e == ValueError::OperationNotNumberType
                &&& pre.spec_index() is Bool
                &&& cells1 =~= cells0
            }
        },
    }
}

/// Steps an array iteration: the element at the current index becomes a
/// shared cell and a handle to it is yielded.
fn next_array_element(
    index: &mut Value,
    elems: &mut Vec<ValuePointer>,
    cells: &mut SharedCells,
) -> (r: Result<Option<ValuePointer>, ValueError>)
    ensures
        match r {
            Ok(o) => match o {
                Some(p) => {
                    &&& numeric_of((*old(index))@) matches Some(n)
                    &&& 0 <= n < (*old(elems))@.len()
                    &&& numeric_of((*final(index))@) == Some(n + 1)
                    &&& match ptrs_view((*old(elems))@)[numeric_of((*old(index))@).unwrap()] {
                        PtrV::Owned(b) => {
                            &&& p@ == PtrV::Shared((*old(cells))@.len() as int)
                            &&& (*final(cells))@ =~= (*old(cells))@.push(Some(*b))
                            &&& ptrs_view((*final(elems))@) =~= ptrs_view((*old(elems))@).update(
                                numeric_of((*old(index))@).unwrap(),
                                p@,
                            )
                        },
                        PtrV::Shared(j) => {
                            &&& p@ == PtrV::Shared(j)
                            &&& (*final(cells))@ == (*old(cells))@
                            &&& ptrs_view((*final(elems))@) =~= ptrs_view((*old(elems))@)
                        },
                    }
                },
                None => {
                    &&& (match numeric_of((*old(index))@) {
                        Some(n) => n >= (*old(elems))@.len() || n > u32::MAX,
                        None => true,
                    })
                    &&& (*final(cells))@ == (*old(cells))@
                    &&& *final(elems) == *old(elems)
                    &&& *final(index) == *old(index)
                },
            },
            Err(e) => {
                &&& (match numeric_of((*old(index))@) {
                    Some(n) => {
                        &&& e == ValueError::IntegerOverflow
                        &&& n == crate::values::spec_type_max(
                            spec_type_of((*old(index))@).unwrap(),
                        )
                        &&& 0 <= n < (*old(elems))@.len()
                    },
                    None => e == ValueError::OperationNotNumberType && (*old(index))@ is Bool,
                })
                &&& (*final(cells))@ == (*old(cells))@
                &&& *final(elems) == *old(elems)
            },
        },
        (*final(cells))@.len() >= (*old(cells))@.len(),
        ptrs_view((*old(elems))@).len() == (*old(elems))@.len(),
{
    proof {
        assert(ptrs_view(elems@).len() == elems@.len());
    }
    let idx64: u64 = match index.clone().checked_cast_to_u64() {
        Ok(n) => n,
        Err(_) => {
            return Ok(None);
        },
    };
    if idx64 > u32::MAX as u64 {
        return Ok(None);
    }
    let idx: u32 = idx64 as u32;
    if (idx as usize) >= elems.len() {
        proof {
            assert(cells@.len() >= (*old(cells))@.len());
        }
        return Ok(None);
    }
    match index.increment() {
        Ok(()) => {},
        Err(e) => {
            proof {
                assert(cells@.len() >= (*old(cells))@.len());
            }
            return Err(e);
        },
    }
    proof {
        assert(ptrs_view(elems@)[idx as int] == crate::cells::ptr_view(elems@[idx as int]));
    }
    let ghost prev = elems@;
    let p = &mut elems[idx as usize];
    let np = p.transform(cells);
    proof {
        assert(forall|k: int|
            0 <= k < prev.len() && k != idx ==> #[trigger] ptrs_view(elems@)[k] == ptrs_view(
                prev,
            )[k]);
        assert(ptrs_view(elems@)[idx as int] == crate::cells::ptr_view(elems@[idx as int]));
        assert(ptrs_view(elems@) =~= ptrs_view(prev).update(idx as int, np@));
        if ptrs_view(prev)[idx as int] is Shared {
            assert(ptrs_view(elems@) =~= ptrs_view(prev));
        }
        assert(cells@.len() >= (*old(cells))@.len());
    }
    Ok(Some(np))
}

/// Steps a range iteration: the current value is yielded and the index
/// moves up by one.
fn next_range_element(index: &mut Value, end: &Value) -> (r: Result<
    Option<ValuePointer>,
    ValueError,
>)
    ensures
        match r {
            Ok(o) => match o {
                Some(p) => {
                    &&& numeric_of((*old(index))@) matches Some(n)
                    &&& numeric_of(end@) matches Some(ne)
                    &&& n < ne
                    &&& p@ == PtrV::Owned(Box::new(CellRt::Prim((*old(index))@)))
                    &&& numeric_of((*final(index))@) == Some(n + 1)
                },
                None => {
                    &&& (match (numeric_of((*old(index))@), numeric_of(end@)) {
                        (Some(n), Some(ne)) => n >= ne || spec_type_of((*old(index))@)
                            != spec_type_of(end@),
                        _ => true,
                    })
                    &&& *final(index) == *old(index)
                },
            },
            Err(e) => {
                &&& e == ValueError::IntegerOverflow
                &&& numeric_of((*old(index))@) matches Some(n)
                &&& n == crate::values::spec_type_max(
                    spec_type_of((*old(index))@).unwrap(),
                )
            },
        },
{
    let below = match index.lt_same_type(end) {
        Ok(b) => b,
        Err(_) => {
            return Ok(None);
        },
    };
    if !below {
        return Ok(None);
    }
    let current = index.clone();
    match index.increment() {
        Ok(()) => {},
        Err(e) => {
            return Err(e);
        },
    }
    Ok(Some(ValuePointer::owned(ValueCell::Default(current))))
}

} // verus!
