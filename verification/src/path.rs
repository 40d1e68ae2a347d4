use vstd::prelude::*;

use crate::cells::{
    slot_live, CellRt, PtrV, SharedCells, ValueCell, ValuePointer, ValuePointerInner, WeakValue,
};
use crate::errors::ValueError;

verus! {

broadcast use vstd::group_vstd_default;

/// A transient access token for a value under evaluation: a value owned
/// outright, a copy read from a constant, or a weak handle into a
/// shared cell.
#[derive(Debug)]
pub enum Path {
    Owned(ValueCell),
    /// A value loaded from a constant; it is promoted to `Owned` before
    /// any write reaches it.
    Borrowed(ValueCell),
    Wrapper(WeakValue),
}

impl Path {
    /// Reads the value the path stands for.
    pub fn read<'a>(&'a self, cells: &'a SharedCells) -> (r: Result<&'a ValueCell, ValueError>)
        ensures
            match r {
                Ok(c) => match *self {
                    Path::Owned(v) => c@ == v@,
                    Path::Borrowed(v) => c@ == v@,
                    Path::Wrapper(w) => slot_live(cells@, w.spec_slot()) && Some(c@)
                        == cells@[w.spec_slot()],
                },
                Err(e) => {
                    &&& self matches Path::Wrapper(w)
                    &&& !slot_live(cells@, w.spec_slot())
                    &&& e == ValueError::WeakValue
                },
            },
    {
        match self {
            Path::Owned(v) => Ok(v),
            Path::Borrowed(v) => Ok(v),
            Path::Wrapper(w) => match w.upgrade(cells) {
                Some(_) => Ok(cells.read(w.slot_index())),
                None => Err(ValueError::WeakValue),
            },
        }
    }

    /// A path to the sub-value at an index of an array or struct. An
    /// owned or borrowed parent moves into the shared store first, so
    /// that the sub-path aliases live state, and the addressed child is
    /// materialised as a shared cell of its own. A dead wrapper, a
    /// parent that has no sub-values, and an index past the end are
    /// each their own fault, and leave the store as it was.
    pub fn get_sub_variable(self, index: usize, cells: &mut SharedCells) -> (r: Result<
        Path,
        ValueError,
    >)
        ensures
            self matches Path::Wrapper(w) && !slot_live((*old(cells))@, w.spec_slot()) ==> r
                == Err::<Path, _>(ValueError::WeakValue) && (*final(cells))@ == (*old(cells))@,
            path_cell(self, (*old(cells))@) matches Some(c) ==> match container_children(c) {
                None => r == Err::<Path, _>(ValueError::SubValue) && (*final(cells))@ =~= (*old(
                    cells,
                ))@,
                Some(kids) => {
                    &&& (index >= kids.len() ==> r == Err::<Path, _>(ValueError::OutOfBounds) && (
                    *final(cells))@ =~= (*old(cells))@)
                    &&& (index < kids.len() ==> (r matches Ok(p) && p matches Path::Wrapper(w2)
                        && match self {
                        Path::Wrapper(w) => match kids[index as int] {
                            PtrV::Owned(b) => w2.spec_slot() == (*old(cells))@.len() && (*final(cells))@ =~= (*old(cells))@.update(
                                w.spec_slot(),
                                Some(container_with(c, index as int, PtrV::Shared(w2.spec_slot()))),
                            ).push(Some(*b)),
                            PtrV::Shared(j) => w2.spec_slot() == j && (*final(cells))@ =~= (*old(
                                cells,
                            ))@,
                        },
                        _ => match kids[index as int] {
                            PtrV::Owned(b) => w2.spec_slot() == (*old(cells))@.len() + 1 && (
                            *final(cells))@ =~= (*old(cells))@.push(
                                Some(container_with(c, index as int, PtrV::Shared(w2.spec_slot()))),
                            ).push(Some(*b)),
                            PtrV::Shared(j) => w2.spec_slot() == j && (*final(cells))@ =~= (*old(
                                cells,
                            ))@.push(Some(c)),
                        },
                    }))
                },
            },
    {
        let slot = match self {
            Path::Owned(v) => {
                if !is_container(&v) {
                    return Err(ValueError::SubValue);
                }
                if index >= container_len(&v) {
                    return Err(ValueError::OutOfBounds);
                }
                cells.store(v)
            },
            Path::Borrowed(v) => {
                if !is_container(&v) {
                    return Err(ValueError::SubValue);
                }
                if index >= container_len(&v) {
                    return Err(ValueError::OutOfBounds);
                }
                cells.store(v)
            },
            Path::Wrapper(w) => {
                let i = w.slot_index();
                if i >= cells.len() || !cells.is_live(i) {
                    return Err(ValueError::WeakValue);
                }
                let target = cells.read(i);
                if !is_container(target) {
                    return Err(ValueError::SubValue);
                }
                if index >= container_len(target) {
                    return Err(ValueError::OutOfBounds);
                }
                i
            },
        };
        let sub = sub_slot(slot, index, cells);
        Ok(Path::Wrapper(WeakValue::new(sub)))
    }

    /// The value itself, copied out of the shared store if the path
    /// wraps a shared cell. A dead weak handle is outside this
    /// function's domain: nothing sensible can be owned from it.
    pub fn into_owned(self, cells: &SharedCells) -> (r: ValueCell)
        requires
            self matches Path::Wrapper(w) ==> slot_live(cells@, w.spec_slot()),
        ensures
            match self {
                Path::Owned(v) => r@ == v@,
                Path::Borrowed(v) => r@ == v@,
                Path::Wrapper(w) => Some(r@) == cells@[w.spec_slot()],
            },
    {
        match self {
            Path::Owned(v) => v,
            Path::Borrowed(v) => v,
            Path::Wrapper(w) => {
                let c = cells.read(w.slot_index());
                c.clone()
            },
        }
    }

    /// A pointer holding the path's value: owned for owned and borrowed
    /// paths, aliasing the shared cell for wrappers.
    pub fn into_pointer(self, cells: &SharedCells) -> (r: ValuePointer)
        requires
            self matches Path::Wrapper(w) ==> slot_live(cells@, w.spec_slot()),
        ensures
            match self {
                Path::Owned(v) => r@ == PtrV::Owned(Box::new(v@)),
                Path::Borrowed(v) => r@ == PtrV::Owned(Box::new(v@)),
                Path::Wrapper(w) => r@ == PtrV::Shared(w.spec_slot()),
            },
    {
        match self {
            Path::Owned(v) => ValuePointer::owned(v),
            Path::Borrowed(v) => ValuePointer::owned(v),
            Path::Wrapper(w) => ValuePointer::shared(w.slot_index()),
        }
    }

    /// Writes a value through the path: in place for an owned path, by
    /// promotion to owned for a borrowed one, and into the live shared
    /// cell for a wrapper.
    pub fn assign(&mut self, value: ValueCell, cells: &mut SharedCells) -> (r: Result<
        (),
        ValueError,
    >)
        ensures
            match r {
                Ok(()) => match *old(self) {
                    Path::Owned(_) => *final(self) == Path::Owned(value) && (*final(cells))@ == (
                    *old(cells))@,
                    Path::Borrowed(_) => *final(self) == Path::Owned(value) && (*final(cells))@
                        == (*old(cells))@,
                    Path::Wrapper(w) => {
                        &&& slot_live((*old(cells))@, w.spec_slot())
                        &&& *final(self) == *old(self)
                        &&& (*final(cells))@ =~= (*old(cells))@.update(
                            w.spec_slot(),
                            Some(value@),
                        )
                    },
                },
                Err(e) => {
                    &&& *old(self) matches Path::Wrapper(w)
                    &&& !slot_live((*old(cells))@, w.spec_slot())
                    &&& e == ValueError::WeakValue
                    &&& *final(self) == *old(self)
                    &&& (*final(cells))@ == (*old(cells))@
                },
            },
    {
        match self {
            Path::Owned(_) => {
                *self = Path::Owned(value);
                Ok(())
            },
            Path::Borrowed(_) => {
                *self = Path::Owned(value);
                Ok(())
            },
            Path::Wrapper(w) => {
                let i = w.slot_index();
                if i < cells.len() && cells.is_live(i) {
                    cells.put(i, value);
                    Ok(())
                } else {
                    Err(ValueError::WeakValue)
                }
            },
        }
    }
}

/// What a path stands for under a store: the value itself for owned
/// and borrowed paths, the wrapped cell while it lives.
pub open spec fn path_cell(p: Path, cells: Seq<Option<CellRt>>) -> Option<CellRt> {
    match p {
        Path::Owned(v) => Some(v@),
        Path::Borrowed(v) => Some(v@),
        Path::Wrapper(w) => {
            if slot_live(cells, w.spec_slot()) {
                cells[w.spec_slot()]
            } else {
                None
            }
        },
    }
}

/// The addressable children of a cell: the elements of an array or the
/// fields of a struct.
pub open spec fn container_children(c: CellRt) -> Option<Seq<PtrV>> {
    match c {
        CellRt::Array(s) => Some(s),
        CellRt::Struct(s, _) => Some(s),
        _ => None,
    }
}

/// The container with the child at an index replaced.
pub open spec fn container_with(c: CellRt, index: int, p: PtrV) -> CellRt {
    match c {
        CellRt::Array(s) => CellRt::Array(s.update(index, p)),
        CellRt::Struct(s, id) => CellRt::Struct(s.update(index, p), id),
        _ => c,
    }
}

/// Whether a cell has addressable children.
fn is_container(c: &ValueCell) -> (r: bool)
    ensures
        r == (container_children(c@) is Some),
{
    match c {
        ValueCell::Array(_) => true,
        ValueCell::Struct(_, _) => true,
        _ => false,
    }
}

/// How many addressable children a container has.
fn container_len(c: &ValueCell) -> (r: usize)
    requires
        container_children(c@) is Some,
    ensures
        r == container_children(c@).unwrap().len(),
{
    match c {
        ValueCell::Array(elems) => {
            proof {
                assert(crate::cells::ptrs_view(elems@).len() == elems@.len());
            }
            elems.len()
        },
        ValueCell::Struct(fields, _) => {
            proof {
                assert(crate::cells::ptrs_view(fields@).len() == fields@.len());
            }
            fields.len()
        },
        _ => unreached(),
    }
}

/// Materialises the child at an index of the container in a live slot
/// as a shared cell of its own, and returns the child's slot: an owned
/// child moves into the store, a shared child is already there.
fn sub_slot(slot: usize, index: usize, cells: &mut SharedCells) -> (r: usize)
    requires
        slot_live((*old(cells))@, slot as int),
        container_children((*old(cells))@[slot as int].unwrap()) matches Some(kids) && index
            < kids.len(),
    ensures
        ({
            let c = (*old(cells))@[slot as int].unwrap();
            let kids = container_children(c).unwrap();
            match kids[index as int] {
                PtrV::Owned(b) => r == (*old(cells))@.len() && (*final(cells))@ =~= (*old(
                    cells,
                ))@.update(slot as int, Some(container_with(c, index as int, PtrV::Shared(r as int)))).push(
                    Some(*b),
                ),
                PtrV::Shared(j) => r == j && (*final(cells))@ =~= (*old(cells))@,
            }
        }),
{
    let ghost c = (*old(cells))@[slot as int].unwrap();
    let cell = cells.take(slot);
    match cell {
        ValueCell::Array(mut elems) => {
            proof {
                assert(crate::cells::ptrs_view(elems@).len() == elems@.len());
                assert(crate::cells::ptrs_view(elems@)[index as int] == crate::cells::ptr_view(
                    elems@[index as int],
                ));
            }
            let ghost prev = elems@;
            let p = &mut elems[index];
            let np = p.transform(cells);
            proof {
                assert(forall|k: int|
                    0 <= k < prev.len() && k != index ==> #[trigger] crate::cells::ptrs_view(
                        elems@,
                    )[k] == crate::cells::ptrs_view(prev)[k]);
                assert(crate::cells::ptrs_view(elems@)[index as int] == crate::cells::ptr_view(
                    elems@[index as int],
                ));
            }
            let sub = match np.0 {
                ValuePointerInner::Shared(i) => i,
                ValuePointerInner::Owned(_) => unreached(),
            };
            proof {
                assert(crate::cells::ptrs_view(elems@) =~= crate::cells::ptrs_view(prev).update(
                    index as int,
                    PtrV::Shared(sub as int),
                ));
            }
            cells.put(slot, ValueCell::Array(elems));
            proof {
                if crate::cells::ptrs_view(prev)[index as int] is Shared {
                    assert(crate::cells::ptrs_view(elems@) =~= crate::cells::ptrs_view(prev));
                    assert(cells@ =~= (*old(cells))@);
                }
            }
            sub
        },
        ValueCell::Struct(mut fields, id) => {
            proof {
                assert(crate::cells::ptrs_view(fields@).len() == fields@.len());
                assert(crate::cells::ptrs_view(fields@)[index as int] == crate::cells::ptr_view(
                    fields@[index as int],
                ));
            }
            let ghost prev = fields@;
            let p = &mut fields[index];
            let np = p.transform(cells);
            proof {
                assert(forall|k: int|
                    0 <= k < prev.len() && k != index ==> #[trigger] crate::cells::ptrs_view(
                        fields@,
                    )[k] == crate::cells::ptrs_view(prev)[k]);
                assert(crate::cells::ptrs_view(fields@)[index as int] == crate::cells::ptr_view(
                    fields@[index as int],
                ));
            }
            let sub = match np.0 {
                ValuePointerInner::Shared(i) => i,
                ValuePointerInner::Owned(_) => unreached(),
            };
            proof {
                assert(crate::cells::ptrs_view(fields@) =~= crate::cells::ptrs_view(prev).update(
                    index as int,
                    PtrV::Shared(sub as int),
                ));
            }
            cells.put(slot, ValueCell::Struct(fields, id));
            proof {
                if crate::cells::ptrs_view(prev)[index as int] is Shared {
                    assert(crate::cells::ptrs_view(fields@) =~= crate::cells::ptrs_view(prev));
                    assert(cells@ =~= (*old(cells))@);
                }
            }
            sub
        },
        _ => unreached(),
    }
}

} // verus!
