use vstd::prelude::*;

use crate::errors::ValueError;
use crate::types::EnumValueId;
use crate::value_type::{cell_view, pairs_view, CellV, ValueType};
use crate::values::{Value, ValueV};

verus! {

broadcast use vstd::group_vstd_default;

/// A runtime composite cell. Children are value pointers, so a child
/// either lives inline (owned) or in a shared slot of the cell store.
/// Map keys are plain values; map values are pointers.
#[derive(Debug)]
pub enum ValueCell {
    Default(Value),
    Struct(Vec<ValuePointer>, u16),
    Array(Vec<ValuePointer>),
    Optional(Option<ValuePointer>),
    Mapping(Vec<(ValueType, ValuePointer)>),
    Enum(Vec<ValuePointer>, EnumValueId),
}

/// Either full ownership of a cell, or the index of a shared slot.
#[derive(Debug)]
pub enum ValuePointerInner {
    Owned(Box<ValueCell>),
    Shared(usize),
}

/// A handle on a runtime value: the unit the stack and the locals hold.
#[derive(Debug)]
pub struct ValuePointer(pub ValuePointerInner);

/// A non-owning reference to a shared slot. It dereferences only while
/// the slot still holds a cell.
#[derive(Clone, Copy, Debug)]
pub struct WeakValue {
    slot: usize,
}

/// The store of shared cells. A slot holds a cell while the cell is
/// alive and nothing once it has been torn down.
#[derive(Debug)]
pub struct SharedCells {
    slots: Vec<Option<ValueCell>>,
}

/// The mathematical shape of a pointer: an owned tree or a slot index.
pub enum PtrV {
    Owned(Box<CellRt>),
    Shared(int),
}

/// The mathematical shape of a runtime cell.
pub enum CellRt {
    Prim(ValueV),
    Struct(Seq<PtrV>, u16),
    Array(Seq<PtrV>),
    Optional(Option<Box<PtrV>>),
    Mapping(Seq<(CellV, PtrV)>),
    Enum(Seq<PtrV>, EnumValueId),
}

/// The model of a runtime cell.
pub open spec fn rt_view(c: ValueCell) -> CellRt
    decreases c,
{
    match c {
        ValueCell::Default(v) => CellRt::Prim(crate::values::value_view(v)),
        ValueCell::Struct(fields, id) => CellRt::Struct(ptrs_view(fields@), id),
        ValueCell::Array(elems) => CellRt::Array(ptrs_view(elems@)),
        ValueCell::Optional(o) => match o {
            Some(p) => CellRt::Optional(Some(Box::new(ptr_view(p)))),
            None => CellRt::Optional(None),
        },
        ValueCell::Mapping(entries) => CellRt::Mapping(rt_pairs_view(entries@)),
        ValueCell::Enum(fields, id) => CellRt::Enum(ptrs_view(fields@), id),
    }
}

/// The model of a pointer.
pub open spec fn ptr_view(p: ValuePointer) -> PtrV
    decreases p,
{
    match p.0 {
        ValuePointerInner::Owned(b) => PtrV::Owned(Box::new(rt_view(*b))),
        ValuePointerInner::Shared(i) => PtrV::Shared(i as int),
    }
}

/// The models of a sequence of pointers, in order.
pub open spec fn ptrs_view(elems: Seq<ValuePointer>) -> Seq<PtrV>
    decreases elems,
{
    Seq::new(
        elems.len(),
        |i: int|
            if 0 <= i < elems.len() {
                ptr_view(elems[i])
            } else {
                PtrV::Shared(0)
            },
    )
}

/// The models of a sequence of map entries, in order.
pub open spec fn rt_pairs_view(entries: Seq<(ValueType, ValuePointer)>) -> Seq<(CellV, PtrV)>
    decreases entries,
{
    Seq::new(
        entries.len(),
        |i: int|
            if 0 <= i < entries.len() {
                (cell_view(entries[i].0), ptr_view(entries[i].1))
            } else {
                (CellV::Optional(None), PtrV::Shared(0))
            },
    )
}

impl View for ValueCell {
    type V = CellRt;

    open spec fn view(&self) -> CellRt {
        rt_view(*self)
    }
}

impl View for ValuePointer {
    type V = PtrV;

    open spec fn view(&self) -> PtrV {
        ptr_view(*self)
    }
}

impl View for SharedCells {
    type V = Seq<Option<CellRt>>;

    closed spec fn view(&self) -> Seq<Option<CellRt>> {
        Seq::new(
            self.slots@.len(),
            |i: int|
                if 0 <= i < self.slots@.len() {
                    match self.slots@[i] {
                        Some(c) => Some(rt_view(c)),
                        None => None,
                    }
                } else {
                    None
                },
        )
    }
}

impl WeakValue {
    /// A weak handle on the given slot.
    pub fn new(slot: usize) -> (r: WeakValue)
        ensures
            r.spec_slot() == slot,
    {
        WeakValue { slot }
    }

    /// The slot the handle points at.
    pub closed spec fn spec_slot(&self) -> int {
        self.slot as int
    }

    /// The slot the handle points at.
    pub fn slot_index(&self) -> (r: usize)
        ensures
            r == self.spec_slot(),
    {
        self.slot
    }

    /// A strong pointer to the slot, while the slot's cell is alive.
    pub fn upgrade(&self, cells: &SharedCells) -> (r: Option<ValuePointer>)
        ensures
            match r {
                Some(p) => slot_live(cells@, self.spec_slot()) && p@ == PtrV::Shared(
                    self.spec_slot(),
                ),
                None => !slot_live(cells@, self.spec_slot()),
            },
    {
        if self.slot < cells.len() && cells.is_live(self.slot) {
            Some(ValuePointer(ValuePointerInner::Shared(self.slot)))
        } else {
            None
        }
    }
}

/// Whether a slot index names a live cell of the store.
pub open spec fn slot_live(slots: Seq<Option<CellRt>>, i: int) -> bool {
    0 <= i < slots.len() && slots[i] is Some
}

/// The cell a pointer stands for under a given store: an owned tree
/// directly, a shared pointer through its slot while the slot lives.
pub open spec fn resolve_cell(p: PtrV, cells: Seq<Option<CellRt>>) -> Option<CellRt> {
    match p {
        PtrV::Owned(b) => Some(*b),
        PtrV::Shared(i) => {
            if slot_live(cells, i) {
                cells[i]
            } else {
                None
            }
        },
    }
}

impl SharedCells {
    /// An empty store.
    pub fn new() -> (r: SharedCells)
        ensures
            r@ =~= Seq::empty(),
    {
        SharedCells { slots: Vec::new() }
    }

    /// How many slots the store has held, dead ones included.
    pub fn len(&self) -> (r: usize)
        ensures
            r == self@.len(),
    {
        self.slots.len()
    }

    /// Whether the slot holds a live cell.
    pub fn is_live(&self, i: usize) -> (r: bool)
        requires
            i < self@.len(),
        ensures
            r == slot_live(self@, i as int),
    {
        self.slots[i].is_some()
    }

    /// Moves a cell into a fresh slot and returns the slot's index.
    pub fn store(&mut self, cell: ValueCell) -> (r: usize)
        ensures
            final(self)@ =~= old(self)@.push(Some(cell@)),
            r == old(self)@.len(),
            slot_live(final(self)@, r as int),
    {
        let r = self.slots.len();
        self.slots.push(Some(cell));
        r
    }

    /// Reads the cell in a live slot.
    pub fn read(&self, i: usize) -> (r: &ValueCell)
        requires
            slot_live(self@, i as int),
        ensures
            Some(r@) == self@[i as int],
    {
        match &self.slots[i] {
            Some(c) => c,
            None => unreached(),
        }
    }

    /// Takes the cell out of a live slot, leaving the slot dead.
    pub fn take(&mut self, i: usize) -> (r: ValueCell)
        requires
            slot_live(old(self)@, i as int),
        ensures
            Some(r@) == old(self)@[i as int],
            final(self)@ =~= old(self)@.update(i as int, None),
    {
        let mut taken: Option<ValueCell> = None;
        let slot = &mut self.slots[i];
        core::mem::swap(slot, &mut taken);
        match taken {
            Some(c) => c,
            None => unreached(),
        }
    }

    /// Puts a cell into a slot, reviving or replacing it.
    pub fn put(&mut self, i: usize, cell: ValueCell)
        requires
            i < old(self)@.len(),
        ensures
            final(self)@ =~= old(self)@.update(i as int, Some(cell@)),
    {
        self.slots[i] = Some(cell);
    }

    /// Borrows the cell in a live slot for writing.
    pub fn borrow_mut(&mut self, i: usize) -> (r: &mut ValueCell)
        requires
            slot_live(old(self)@, i as int),
        ensures
            Some((*r)@) == old(self)@[i as int],
            final(self)@ =~= old(self)@.update(i as int, Some((*final(r))@)),
    {
        match &mut self.slots[i] {
            Some(c) => c,
            None => unreached(),
        }
    }
}


/// Clone for runtime cells: an owned child is cloned in depth, a shared
/// child keeps pointing at the same slot.
impl Clone for ValueCell {
    fn clone(&self) -> (r: Self)
        ensures
            r@ == self@,
        decreases self,
    {
        match self {
            ValueCell::Default(v) => ValueCell::Default(v.clone()),
            ValueCell::Struct(fields, id) => ValueCell::Struct(clone_pointers(fields), *id),
            ValueCell::Array(elems) => ValueCell::Array(clone_pointers(elems)),
            ValueCell::Optional(o) => match o {
                Some(p) => ValueCell::Optional(Some(p.clone())),
                None => ValueCell::Optional(None),
            },
            ValueCell::Mapping(entries) => {
                let mut out: Vec<(ValueType, ValuePointer)> = Vec::new();
                let mut i: usize = 0;
                while i < entries.len()
                    invariant
                        *self == ValueCell::Mapping(*entries),
                        i <= entries.len(),
                        rt_pairs_view(out@) =~= rt_pairs_view(entries@).take(i as int),
                    decreases entries.len() - i,
                {
                    proof {
                        assert(decreases_to!(*self => self->Mapping_0));
                        assert(decreases_to!(*entries => entries@[i as int]));
                        assert(decreases_to!(entries@[i as int] => entries@[i as int].1));
                        assert(rt_pairs_view(out@).len() == out@.len());
                    }
                    let k = entries[i].0.clone();
                    let v = entries[i].1.clone();
                    proof {
                        assert(crate::value_type::cell_view(k) == crate::value_type::cell_view(
                            entries@[i as int].0,
                        ));
                        assert(ptr_view(v) == ptr_view(entries@[i as int].1));
                    }
                    out.push((k, v));
                    proof {
                        assert(out@.len() == i + 1);
                        assert(out@[i as int] == (k, v));
                        assert(rt_pairs_view(out@)[i as int] == rt_pairs_view(entries@)[i as int]);
                        assert(rt_pairs_view(out@) =~= rt_pairs_view(entries@).take(i + 1));
                    }
                    i += 1;
                }
                proof {
                    assert(rt_pairs_view(entries@).take(entries@.len() as int) =~= rt_pairs_view(
                        entries@,
                    ));
                }
                ValueCell::Mapping(out)
            },
            ValueCell::Enum(fields, id) => ValueCell::Enum(clone_pointers(fields), *id),
        }
    }
}

/// Clone for pointers: cloning a shared pointer aliases the same slot.
impl Clone for ValuePointer {
    fn clone(&self) -> (r: Self)
        ensures
            r@ == self@,
        decreases self,
    {
        match &self.0 {
            ValuePointerInner::Owned(b) => ValuePointer(
                ValuePointerInner::Owned(Box::new((**b).clone())),
            ),
            ValuePointerInner::Shared(i) => ValuePointer(ValuePointerInner::Shared(*i)),
        }
    }
}

/// Clones a list of pointers element by element.
fn clone_pointers(elems: &Vec<ValuePointer>) -> (r: Vec<ValuePointer>)
    ensures
        ptrs_view(r@) =~= ptrs_view(elems@),
    decreases elems,
{
    let mut out: Vec<ValuePointer> = Vec::new();
    let mut i: usize = 0;
    while i < elems.len()
        invariant
            i <= elems.len(),
            ptrs_view(out@) =~= ptrs_view(elems@).take(i as int),
        decreases elems.len() - i,
    {
        proof {
            assert(decreases_to!(*elems => elems@[i as int]));
            assert(ptrs_view(out@).len() == out@.len());
        }
        let c = elems[i].clone();
        proof {
            assert(ptr_view(c) == ptr_view(elems@[i as int]));
        }
        out.push(c);
        proof {
            assert(out@.len() == i + 1);
            assert(ptrs_view(out@)[i as int] == ptrs_view(elems@)[i as int]);
            assert(ptrs_view(out@) =~= ptrs_view(elems@).take(i + 1));
        }
        i += 1;
    }
    proof {
        assert(ptrs_view(elems@).take(elems@.len() as int) =~= ptrs_view(elems@));
    }
    out
}

impl ValuePointer {
    /// A pointer that owns its cell outright.
    pub fn owned(value: ValueCell) -> (r: Self)
        ensures
            r@ == PtrV::Owned(Box::new(value@)),
    {
        ValuePointer(ValuePointerInner::Owned(Box::new(value)))
    }

    /// A pointer into a shared slot.
    pub fn shared(slot: usize) -> (r: Self)
        ensures
            r@ == PtrV::Shared(slot as int),
    {
        ValuePointer(ValuePointerInner::Shared(slot))
    }

    /// The identity of the cell the pointer shares, if it shares one:
    /// two shared pointers alias exactly when these match.
    pub fn get_value_ptr(&self) -> (r: Option<usize>)
        ensures
            match r {
                Some(i) => self@ == PtrV::Shared(i as int),
                None => self@ is Owned,
            },
    {
        match &self.0 {
            ValuePointerInner::Owned(_) => None,
            ValuePointerInner::Shared(i) => Some(*i),
        }
    }

    /// Reads the cell behind the pointer; a dead slot is a fault.
    pub fn handle<'a>(&'a self, cells: &'a SharedCells) -> (r: Result<&'a ValueCell, ValueError>)
        ensures
            match r {
                Ok(c) => match self@ {
                    PtrV::Owned(b) => c@ == *b,
                    PtrV::Shared(i) => slot_live(cells@, i) && Some(c@) == cells@[i],
                },
                Err(e) => {
                    &&& self@ matches PtrV::Shared(i)
                    &&& !slot_live(cells@, i)
                    &&& e == ValueError::WeakValue
                },
            },
    {
        match &self.0 {
            ValuePointerInner::Owned(b) => Ok(&**b),
            ValuePointerInner::Shared(i) => {
                if *i < cells.len() && cells.is_live(*i) {
                    Ok(cells.read(*i))
                } else {
                    Err(ValueError::WeakValue)
                }
            },
        }
    }

    /// Borrows the cell behind the pointer for writing.
    pub fn handle_mut<'a>(&'a mut self, cells: &'a mut SharedCells) -> (r: Result<
        &'a mut ValueCell,
        ValueError,
    >)
        ensures
            match r {
                Ok(c) => match (*old(self))@ {
                    PtrV::Owned(b) => {
                        &&& (*c)@ == *b
                        &&& (*final(self))@ == PtrV::Owned(Box::new((*final(c))@))
                        &&& (*final(cells))@ == (*old(cells))@
                    },
                    PtrV::Shared(i) => {
                        &&& slot_live((*old(cells))@, i)
                        &&& Some((*c)@) == (*old(cells))@[i]
                        &&& *final(self) == *old(self)
                        &&& (*final(cells))@ == (*old(cells))@.update(i, Some((*final(c))@))
                    },
                },
                Err(e) => {
                    &&& *final(self) == *old(self)
                    &&& (*final(cells))@ == (*old(cells))@
                    &&& (*old(self))@ matches PtrV::Shared(i)
                    &&& !slot_live((*old(cells))@, i)
                    &&& e == ValueError::WeakValue
                },
            },
    {
        match &mut self.0 {
            ValuePointerInner::Owned(b) => Ok(&mut **b),
            ValuePointerInner::Shared(i) => {
                if *i < cells.len() && cells.is_live(*i) {
                    Ok(cells.borrow_mut(*i))
                } else {
                    Err(ValueError::WeakValue)
                }
            },
        }
    }

    /// A copy of the cell behind the pointer.
    pub fn to_value(&self, cells: &SharedCells) -> (r: Result<ValueCell, ValueError>)
        ensures
            match r {
                Ok(c) => match self@ {
                    PtrV::Owned(b) => c@ == *b,
                    PtrV::Shared(i) => slot_live(cells@, i) && Some(c@) == cells@[i],
                },
                Err(e) => {
                    &&& self@ matches PtrV::Shared(i)
                    &&& !slot_live(cells@, i)
                    &&& e == ValueError::WeakValue
                },
            },
    {
        match self.handle(cells) {
            Ok(c) => Ok(c.clone()),
            Err(e) => Err(e),
        }
    }

    /// Moves an owned cell into the shared store, so that this pointer
    /// and the returned one alias it; a pointer that already shares
    /// stays as it is.
    pub fn transform(&mut self, cells: &mut SharedCells) -> (r: ValuePointer)
        ensures
            match (*old(self))@ {
                PtrV::Owned(b) => {
                    &&& (*final(cells))@ =~= (*old(cells))@.push(Some(*b))
                    &&& (*final(self))@ == PtrV::Shared((*old(cells))@.len() as int)
                    &&& r@ == PtrV::Shared((*old(cells))@.len() as int)
                },
                PtrV::Shared(i) => {
                    &&& *final(self) == *old(self)
                    &&& (*final(cells))@ == (*old(cells))@
                    &&& r@ == PtrV::Shared(i)
                },
            },
    {
        let mut tmp = ValuePointerInner::Shared(0);
        core::mem::swap(&mut self.0, &mut tmp);
        match tmp {
            ValuePointerInner::Owned(b) => {
                let idx = cells.store(*b);
                self.0 = ValuePointerInner::Shared(idx);
                ValuePointer(ValuePointerInner::Shared(idx))
            },
            ValuePointerInner::Shared(i) => {
                self.0 = ValuePointerInner::Shared(i);
                ValuePointer(ValuePointerInner::Shared(i))
            },
        }
    }

    /// An owning pointer to the same value: a shared cell is copied out.
    pub fn into_owned(self, cells: &SharedCells) -> (r: Result<ValuePointer, ValueError>)
        ensures
            match r {
                Ok(p) => match self@ {
                    PtrV::Owned(b) => p@ == PtrV::Owned(b),
                    PtrV::Shared(i) => slot_live(cells@, i) && p@ == PtrV::Owned(
                        Box::new(cells@[i].unwrap()),
                    ),
                },
                Err(e) => {
                    &&& self@ matches PtrV::Shared(i)
                    &&& !slot_live(cells@, i)
                    &&& e == ValueError::WeakValue
                },
            },
    {
        match self.0 {
            ValuePointerInner::Owned(b) => Ok(ValuePointer(ValuePointerInner::Owned(b))),
            ValuePointerInner::Shared(i) => {
                if i < cells.len() && cells.is_live(i) {
                    let c = cells.read(i).clone();
                    Ok(ValuePointer(ValuePointerInner::Owned(Box::new(c))))
                } else {
                    Err(ValueError::WeakValue)
                }
            },
        }
    }

    /// The cell behind the pointer: moved out when owned, copied when
    /// shared.
    pub fn into_value(self, cells: &SharedCells) -> (r: Result<ValueCell, ValueError>)
        ensures
            match r {
                Ok(c) => match self@ {
                    PtrV::Owned(b) => c@ == *b,
                    PtrV::Shared(i) => slot_live(cells@, i) && Some(c@) == cells@[i],
                },
                Err(e) => {
                    &&& self@ matches PtrV::Shared(i)
                    &&& !slot_live(cells@, i)
                    &&& e == ValueError::WeakValue
                },
            },
    {
        match self.0 {
            ValuePointerInner::Owned(b) => Ok(*b),
            ValuePointerInner::Shared(i) => {
                if i < cells.len() && cells.is_live(i) {
                    Ok(cells.read(i).clone())
                } else {
                    Err(ValueError::WeakValue)
                }
            },
        }
    }

    /// Takes the cell behind the pointer: a shared slot keeps a null in
    /// its place and stays alive.
    pub fn take_value(self, cells: &mut SharedCells) -> (r: Result<ValueCell, ValueError>)
        ensures
            match r {
                Ok(c) => match self@ {
                    PtrV::Owned(b) => c@ == *b && (*final(cells))@ == (*old(cells))@,
                    PtrV::Shared(i) => {
                        &&& slot_live((*old(cells))@, i)
                        &&& Some(c@) == (*old(cells))@[i]
                        &&& (*final(cells))@ =~= (*old(cells))@.update(
                            i,
                            Some(CellRt::Prim(ValueV::Null)),
                        )
                    },
                },
                Err(e) => {
                    &&& (*final(cells))@ == (*old(cells))@
                    &&& self@ matches PtrV::Shared(i)
                    &&& !slot_live((*old(cells))@, i)
                    &&& e == ValueError::WeakValue
                },
            },
    {
        match self.0 {
            ValuePointerInner::Owned(b) => Ok(*b),
            ValuePointerInner::Shared(i) => {
                if i < cells.len() && cells.is_live(i) {
                    let c = cells.take(i);
                    cells.put(i, ValueCell::Default(Value::Null));
                    Ok(c)
                } else {
                    Err(ValueError::WeakValue)
                }
            },
        }
    }

    /// Takes the child pointer at an index out of an array or struct
    /// cell; the rest of the cell is consumed (owned) or keeps the
    /// remaining children (shared).
    pub fn get_field_at(self, index: usize, cells: &mut SharedCells) -> (r: Result<
        ValuePointer,
        ValueError,
    >)
        ensures
            match r {
                Ok(p) => match self@ {
                    PtrV::Owned(b) => (*final(cells))@ == (*old(cells))@ && match *b {
                        CellRt::Array(s) => index < s.len() && p@ == s[index as int],
                        CellRt::Struct(s, _) => index < s.len() && p@ == s[index as int],
                        _ => false,
                    },
                    PtrV::Shared(i) => {
                        &&& slot_live((*old(cells))@, i)
                        &&& match (*old(cells))@[i].unwrap() {
                            CellRt::Array(s) => index < s.len() && p@ == s[index as int] && (
                            *final(cells))@ =~= (*old(cells))@.update(
                                i,
                                Some(CellRt::Array(s.remove(index as int))),
                            ),
                            CellRt::Struct(s, id) => index < s.len() && p@ == s[index as int] && (
                            *final(cells))@ =~= (*old(cells))@.update(
                                i,
                                Some(CellRt::Struct(s.remove(index as int), id)),
                            ),
                            _ => false,
                        }
                    },
                },
                Err(e) => {
                    &&& (*final(cells))@ =~= (*old(cells))@
                    &&& match resolve_cell(self@, (*old(cells))@) {
                        None => e == ValueError::WeakValue,
                        Some(c) => match c {
                            CellRt::Array(s) => index >= s.len() && e == ValueError::OutOfBounds,
                            CellRt::Struct(s, _) => index >= s.len() && e
                                == ValueError::OutOfBounds,
                            _ => e == ValueError::SubValue,
                        },
                    }
                },
            },
    {
        match self.0 {
            ValuePointerInner::Owned(b) => {
                let cell = *b;
                match cell {
                    ValueCell::Array(mut elems) => {
                        proof {
                            assert(ptrs_view(elems@).len() == elems@.len());
                        }
                        if index >= elems.len() {
                            return Err(ValueError::OutOfBounds);
                        }
                        let ghost prev = elems@;
                        let p = elems.remove(index);
                        proof {
                            assert(ptrs_view(prev)[index as int] == ptr_view(prev[index as int]));
                        }
                        Ok(p)
                    },
                    ValueCell::Struct(mut fields, _) => {
                        proof {
                            assert(ptrs_view(fields@).len() == fields@.len());
                        }
                        if index >= fields.len() {
                            return Err(ValueError::OutOfBounds);
                        }
                        let ghost prev = fields@;
                        let p = fields.remove(index);
                        proof {
                            assert(ptrs_view(prev)[index as int] == ptr_view(prev[index as int]));
                        }
                        Ok(p)
                    },
                    _ => Err(ValueError::SubValue),
                }
            },
            ValuePointerInner::Shared(i) => {
                if i < cells.len() && cells.is_live(i) {
                    let cell = cells.take(i);
                    match cell {
                        ValueCell::Array(mut elems) => {
                            proof {
                                assert(ptrs_view(elems@).len() == elems@.len());
                            }
                            if index >= elems.len() {
                                cells.put(i, ValueCell::Array(elems));
                                proof {
                                    assert(cells@ =~= (*old(cells))@);
                                }
                                return Err(ValueError::OutOfBounds);
                            }
                            let ghost prev = elems@;
                            let p = elems.remove(index);
                            proof {
                                assert(ptrs_view(elems@) =~= ptrs_view(prev).remove(index as int));
                            }
                            cells.put(i, ValueCell::Array(elems));
                            Ok(p)
                        },
                        ValueCell::Struct(mut fields, id) => {
                            proof {
                                assert(ptrs_view(fields@).len() == fields@.len());
                            }
                            if index >= fields.len() {
                                cells.put(i, ValueCell::Struct(fields, id));
                                proof {
                                    assert(cells@ =~= (*old(cells))@);
                                }
                                return Err(ValueError::OutOfBounds);
                            }
                            let ghost prev = fields@;
                            let p = fields.remove(index);
                            proof {
                                assert(ptrs_view(fields@) =~= ptrs_view(prev).remove(index as int));
                            }
                            cells.put(i, ValueCell::Struct(fields, id));
                            Ok(p)
                        },
                        other => {
                            cells.put(i, other);
                            proof {
                                assert(cells@ =~= (*old(cells))@);
                            }
                            Err(ValueError::SubValue)
                        },
                    }
                } else {
                    Err(ValueError::WeakValue)
                }
            },
        }
    }
}


/// The plain value a pointer stands for, when its whole tree is owned.
pub open spec fn ptr_plain(p: PtrV) -> Option<CellV>
    decreases p,
{
    match p {
        PtrV::Owned(b) => rt_plain(*b),
        PtrV::Shared(_) => None,
    }
}

/// The plain value a runtime cell stands for, when no shared pointer
/// occurs in it.
pub open spec fn rt_plain(c: CellRt) -> Option<CellV>
    decreases c,
{
    match c {
        CellRt::Prim(v) => Some(CellV::Prim(v)),
        CellRt::Struct(s, id) => match ptrs_plain(s) {
            Some(t) => Some(CellV::Struct(t, id)),
            None => None,
        },
        CellRt::Array(s) => match ptrs_plain(s) {
            Some(t) => Some(CellV::Array(t)),
            None => None,
        },
        CellRt::Optional(o) => match o {
            Some(b) => match ptr_plain(*b) {
                Some(t) => Some(CellV::Optional(Some(Box::new(t)))),
                None => None,
            },
            None => Some(CellV::Optional(None)),
        },
        CellRt::Mapping(s) => match rt_pairs_plain(s) {
            Some(t) => Some(CellV::Mapping(t)),
            None => None,
        },
        CellRt::Enum(s, id) => match ptrs_plain(s) {
            Some(t) => Some(CellV::Enum(t, id)),
            None => None,
        },
    }
}

/// The plain values of a pointer list, when every one is plain.
pub open spec fn ptrs_plain(s: Seq<PtrV>) -> Option<Seq<CellV>>
    decreases s,
{
    if forall|j: int| 0 <= j < s.len() ==> ptr_plain(#[trigger] s[j]) is Some {
        Some(
            Seq::new(
                s.len(),
                |j: int|
                    if 0 <= j < s.len() {
                        ptr_plain(s[j]).unwrap()
                    } else {
                        CellV::Optional(None)
                    },
            ),
        )
    } else {
        None
    }
}

/// The plain entries of a map cell, when every value is plain.
pub open spec fn rt_pairs_plain(s: Seq<(CellV, PtrV)>) -> Option<Seq<(CellV, CellV)>>
    decreases s,
{
    if forall|j: int| 0 <= j < s.len() ==> ptr_plain(#[trigger] s[j].1) is Some {
        Some(
            Seq::new(
                s.len(),
                |j: int|
                    if 0 <= j < s.len() {
                        (s[j].0, ptr_plain(s[j].1).unwrap())
                    } else {
                        (CellV::Optional(None), CellV::Optional(None))
                    },
            ),
        )
    } else {
        None
    }
}

/// The runtime cell that holds a plain value, every child owned.
pub open spec fn rt_of_plain(v: CellV) -> CellRt
    decreases v,
{
    match v {
        CellV::Prim(p) => CellRt::Prim(p),
        CellV::Struct(s, id) => CellRt::Struct(ptrs_of_plain(s), id),
        CellV::Array(s) => CellRt::Array(ptrs_of_plain(s)),
        CellV::Optional(o) => match o {
            Some(b) => CellRt::Optional(Some(Box::new(PtrV::Owned(Box::new(rt_of_plain(*b)))))),
            None => CellRt::Optional(None),
        },
        CellV::Mapping(s) => CellRt::Mapping(pairs_of_plain(s)),
        CellV::Enum(s, id) => CellRt::Enum(ptrs_of_plain(s), id),
    }
}

/// The owned pointers that hold a list of plain values.
pub open spec fn ptrs_of_plain(s: Seq<CellV>) -> Seq<PtrV>
    decreases s,
{
    Seq::new(
        s.len(),
        |j: int|
            if 0 <= j < s.len() {
                PtrV::Owned(Box::new(rt_of_plain(s[j])))
            } else {
                PtrV::Shared(0)
            },
    )
}

/// The runtime entries that hold a list of plain map entries.
pub open spec fn pairs_of_plain(s: Seq<(CellV, CellV)>) -> Seq<(CellV, PtrV)>
    decreases s,
{
    Seq::new(
        s.len(),
        |j: int|
            if 0 <= j < s.len() {
                (s[j].0, PtrV::Owned(Box::new(rt_of_plain(s[j].1))))
            } else {
                (CellV::Optional(None), PtrV::Shared(0))
            },
    )
}

/// Loading a plain value into a runtime cell and reading it back gives
/// the same plain value: nothing is lost between a module's constants
/// and the running program.
pub proof fn lemma_plain_round_trip(v: CellV)
    ensures
        rt_plain(rt_of_plain(v)) == Some(v),
    decreases v,
{
    match v {
        CellV::Prim(_) => {},
        CellV::Struct(s, id) => {
            lemma_ptrs_round_trip(s);
            assert(ptrs_plain(ptrs_of_plain(s)).unwrap() =~= s);
        },
        CellV::Array(s) => {
            lemma_ptrs_round_trip(s);
            assert(ptrs_plain(ptrs_of_plain(s)).unwrap() =~= s);
        },
        CellV::Optional(o) => match o {
            Some(b) => {
                lemma_plain_round_trip(*b);
            },
            None => {},
        },
        CellV::Mapping(s) => {
            assert forall|j: int| 0 <= j < pairs_of_plain(s).len() implies ptr_plain(
                #[trigger] pairs_of_plain(s)[j].1,
            ) == Some(s[j].1) by {
                assert(decreases_to!(s => s[j]));
                assert(decreases_to!(s[j] => s[j].1));
                lemma_plain_round_trip(s[j].1);
            }
            assert forall|j: int| 0 <= j < s.len() implies #[trigger] rt_pairs_plain(
                pairs_of_plain(s),
            ).unwrap()[j] == s[j] by {
                assert((s[j].0, s[j].1) == s[j]);
            }
            assert(rt_pairs_plain(pairs_of_plain(s)).unwrap() =~= s);
        },
        CellV::Enum(s, id) => {
            lemma_ptrs_round_trip(s);
            assert(ptrs_plain(ptrs_of_plain(s)).unwrap() =~= s);
        },
    }
}

/// The round trip, for each element of a list of plain values.
pub proof fn lemma_ptrs_round_trip(s: Seq<CellV>)
    ensures
        forall|j: int| 0 <= j < s.len() ==> ptr_plain(#[trigger] ptrs_of_plain(s)[j]) == Some(s[j]),
    decreases s,
{
    assert forall|j: int| 0 <= j < s.len() implies ptr_plain(#[trigger] ptrs_of_plain(s)[j])
        == Some(s[j]) by {
        assert(decreases_to!(s => s[j]));
        lemma_plain_round_trip(s[j]);
    }
}

impl ValueCell {
    /// The plain value this cell holds, when no shared pointer occurs
    /// in it; a shared child is a fault, since a plain value must not
    /// alias mutable state.
    pub fn to_plain(&self) -> (r: Result<ValueType, ValueError>)
        ensures
            match r {
                Ok(t) => rt_plain(self@) == Some(t@),
                Err(e) => rt_plain(self@) is None && e == ValueError::SharedValue,
            },
        decreases self,
    {
        match self {
            ValueCell::Default(v) => Ok(ValueType::Default(v.clone())),
            ValueCell::Struct(fields, id) => match pointers_to_plain(fields) {
                Ok(t) => Ok(ValueType::Struct(t, *id)),
                Err(e) => Err(e),
            },
            ValueCell::Array(elems) => match pointers_to_plain(elems) {
                Ok(t) => Ok(ValueType::Array(t)),
                Err(e) => Err(e),
            },
            ValueCell::Optional(o) => match o {
                Some(p) => match &p.0 {
                    ValuePointerInner::Owned(b) => match (&**b).to_plain() {
                        Ok(t) => Ok(ValueType::Optional(Some(Box::new(t)))),
                        Err(e) => Err(e),
                    },
                    ValuePointerInner::Shared(_) => Err(ValueError::SharedValue),
                },
                None => Ok(ValueType::Optional(None)),
            },
            ValueCell::Mapping(entries) => {
                let ghost ev = rt_pairs_view(entries@);
                let mut out: Vec<(ValueType, ValueType)> = Vec::new();
                let mut i: usize = 0;
                while i < entries.len()
                    invariant
                        *self == ValueCell::Mapping(*entries),
                        ev == rt_pairs_view(entries@),
                        i <= entries.len(),
                        out@.len() == i,
                        forall|j: int| 0 <= j < i ==> ptr_plain(#[trigger] ev[j].1) is Some,
                        pairs_view(out@) =~= Seq::new(
                            i as nat,
                            |j: int|
                                if 0 <= j < i {
                                    (ev[j].0, ptr_plain(ev[j].1).unwrap())
                                } else {
                                    (CellV::Optional(None), CellV::Optional(None))
                                },
                        ),
                    decreases entries.len() - i,
                {
                    proof {
                        assert(decreases_to!(*self => self->Mapping_0));
                        assert(decreases_to!(*entries => entries@[i as int]));
                        assert(decreases_to!(entries@[i as int] => entries@[i as int].0));
                        assert(decreases_to!(entries@[i as int] => entries@[i as int].1));
                        assert(ev[i as int] == (cell_view(entries@[i as int].0), ptr_view(
                            entries@[i as int].1,
                        )));
                    }
                    let pair = &entries[i];
                    match &pair.1.0 {
                        ValuePointerInner::Owned(b) => {
                            proof {
                                assert(decreases_to!(entries@[i as int].1 => entries@[
                                    i as int
                                ].1.0));
                            }
                            match (&**b).to_plain() {
                                Ok(t) => {
                                    let key = pair.0.clone();
                                    let ghost prev = out@;
                                    out.push((key, t));
                                    proof {
                                        assert(out@.len() == i + 1);
                                        assert(pairs_view(out@)[i as int] == (
                                            cell_view(key),
                                            cell_view(t),
                                        ));
                                        assert(ptr_plain(ev[i as int].1) == Some(cell_view(t)));
                                        assert(forall|j: int|
                                            0 <= j < i ==> #[trigger] pairs_view(out@)[j]
                                                == pairs_view(prev)[j]);
                                        assert(pairs_view(out@) =~= Seq::new(
                                            (i + 1) as nat,
                                            |j: int|
                                                if 0 <= j < i + 1 {
                                                    (ev[j].0, ptr_plain(ev[j].1).unwrap())
                                                } else {
                                                    (
                                                        CellV::Optional(None),
                                                        CellV::Optional(None),
                                                    )
                                                },
                                        ));
                                    }
                                },
                                Err(e) => {
                                    proof {
                                        assert(ptr_plain(ev[i as int].1) is None);
                                        assert(rt_pairs_plain(ev) is None);
                                    }
                                    return Err(e);
                                },
                            }
                        },
                        ValuePointerInner::Shared(_) => {
                            proof {
                                assert(ptr_plain(ev[i as int].1) is None);
                                assert(rt_pairs_plain(ev) is None);
                            }
                            return Err(ValueError::SharedValue);
                        },
                    }
                    i += 1;
                }
                proof {
                    assert(rt_pairs_plain(ev) matches Some(t) && t =~= pairs_view(out@));
                }
                Ok(ValueType::Mapping(out))
            },
            ValueCell::Enum(fields, id) => match pointers_to_plain(fields) {
                Ok(t) => Ok(ValueType::Enum(t, *id)),
                Err(e) => Err(e),
            },
        }
    }
}

/// Converts a list of pointers into plain values, when every one is a
/// fully owned tree.
fn pointers_to_plain(elems: &Vec<ValuePointer>) -> (r: Result<Vec<ValueType>, ValueError>)
    ensures
        match r {
            Ok(t) => ptrs_plain(ptrs_view(elems@)) == Some(crate::value_type::cells_view(t@)),
            Err(e) => ptrs_plain(ptrs_view(elems@)) is None && e == ValueError::SharedValue,
        },
    decreases elems,
{
    let ghost ev = ptrs_view(elems@);
    let mut out: Vec<ValueType> = Vec::new();
    let mut i: usize = 0;
    while i < elems.len()
        invariant
            ev == ptrs_view(elems@),
            i <= elems.len(),
            out@.len() == i,
            forall|j: int| 0 <= j < i ==> ptr_plain(#[trigger] ev[j]) is Some,
            crate::value_type::cells_view(out@) =~= Seq::new(
                i as nat,
                |j: int|
                    if 0 <= j < i {
                        ptr_plain(ev[j]).unwrap()
                    } else {
                        CellV::Optional(None)
                    },
            ),
        decreases elems.len() - i,
    {
        proof {
            assert(decreases_to!(*elems => elems@[i as int]));
            assert(ev[i as int] == ptr_view(elems@[i as int]));
        }
        match &elems[i].0 {
            ValuePointerInner::Owned(b) => {
                proof {
                    assert(decreases_to!(elems@[i as int] => elems@[i as int].0));
                }
                match (&**b).to_plain() {
                    Ok(t) => {
                        let ghost prev = out@;
                        out.push(t);
                        proof {
                            assert(out@.len() == i + 1);
                            assert(crate::value_type::cells_view(out@)[i as int] == cell_view(t));
                            assert(ptr_plain(ev[i as int]) == Some(cell_view(t)));
                            assert(forall|j: int|
                                0 <= j < i ==> #[trigger] crate::value_type::cells_view(out@)[j]
                                    == crate::value_type::cells_view(prev)[j]);
                            assert(crate::value_type::cells_view(out@) =~= Seq::new(
                                (i + 1) as nat,
                                |j: int|
                                    if 0 <= j < i + 1 {
                                        ptr_plain(ev[j]).unwrap()
                                    } else {
                                        CellV::Optional(None)
                                    },
                            ));
                        }
                    },
                    Err(e) => {
                        proof {
                            assert(ptr_plain(ev[i as int]) is None);
                            assert(ptrs_plain(ev) is None);
                        }
                        return Err(e);
                    },
                }
            },
            ValuePointerInner::Shared(_) => {
                proof {
                    assert(ptr_plain(ev[i as int]) is None);
                    assert(ptrs_plain(ev) is None);
                }
                return Err(ValueError::SharedValue);
            },
        }
        i += 1;
    }
    proof {
        assert(ptrs_plain(ev) matches Some(t) && t =~= crate::value_type::cells_view(out@));
    }
    Ok(out)
}

impl ValueType {
    /// The runtime cell that holds this plain value; every child is
    /// owned, so the cell shares nothing.
    pub fn to_cell(&self) -> (r: ValueCell)
        ensures
            r@ == rt_of_plain(self@),
        decreases self,
    {
        match self {
            ValueType::Default(v) => ValueCell::Default(v.clone()),
            ValueType::Struct(fields, id) => ValueCell::Struct(plain_to_pointers(fields), *id),
            ValueType::Array(elems) => ValueCell::Array(plain_to_pointers(elems)),
            ValueType::Optional(o) => match o {
                Some(b) => ValueCell::Optional(
                    Some(ValuePointer(ValuePointerInner::Owned(Box::new((&**b).to_cell())))),
                ),
                None => ValueCell::Optional(None),
            },
            ValueType::Mapping(entries) => {
                let ghost ev = pairs_view(entries@);
                let mut out: Vec<(ValueType, ValuePointer)> = Vec::new();
                let mut i: usize = 0;
                while i < entries.len()
                    invariant
                        *self == ValueType::Mapping(*entries),
                        ev == pairs_view(entries@),
                        i <= entries.len(),
                        out@.len() == i,
                        rt_pairs_view(out@) =~= pairs_of_plain(ev).take(i as int),
                    decreases entries.len() - i,
                {
                    proof {
                        assert(decreases_to!(*self => self->Mapping_0));
                        assert(decreases_to!(*entries => entries@[i as int]));
                        assert(decreases_to!(entries@[i as int] => entries@[i as int].0));
                        assert(decreases_to!(entries@[i as int] => entries@[i as int].1));
                        assert(ev[i as int] == (cell_view(entries@[i as int].0), cell_view(
                            entries@[i as int].1,
                        )));
                    }
                    let pair = &entries[i];
                    let key = pair.0.clone();
                    let c = pair.1.to_cell();
                    out.push((key, ValuePointer(ValuePointerInner::Owned(Box::new(c)))));
                    proof {
                        assert(rt_pairs_view(out@)[i as int] == pairs_of_plain(ev)[i as int]);
                        assert(rt_pairs_view(out@) =~= pairs_of_plain(ev).take(i + 1));
                    }
                    i += 1;
                }
                proof {
                    assert(pairs_of_plain(ev).take(ev.len() as int) =~= pairs_of_plain(ev));
                }
                ValueCell::Mapping(out)
            },
            ValueType::Enum(fields, id) => ValueCell::Enum(plain_to_pointers(fields), *id),
        }
    }
}

/// Converts plain values into a list of owned pointers.
fn plain_to_pointers(elems: &Vec<ValueType>) -> (r: Vec<ValuePointer>)
    ensures
        ptrs_view(r@) =~= ptrs_of_plain(crate::value_type::cells_view(elems@)),
    decreases elems,
{
    let ghost ev = crate::value_type::cells_view(elems@);
    let mut out: Vec<ValuePointer> = Vec::new();
    let mut i: usize = 0;
    while i < elems.len()
        invariant
            ev == crate::value_type::cells_view(elems@),
            i <= elems.len(),
            out@.len() == i,
            ptrs_view(out@) =~= ptrs_of_plain(ev).take(i as int),
        decreases elems.len() - i,
    {
        proof {
            assert(decreases_to!(*elems => elems@[i as int]));
            assert(ev[i as int] == cell_view(elems@[i as int]));
        }
        let c = elems[i].to_cell();
        out.push(ValuePointer(ValuePointerInner::Owned(Box::new(c))));
        proof {
            assert(ptrs_view(out@)[i as int] == ptrs_of_plain(ev)[i as int]);
            assert(ptrs_view(out@) =~= ptrs_of_plain(ev).take(i + 1));
        }
        i += 1;
    }
    proof {
        assert(ptrs_of_plain(ev).take(ev.len() as int) =~= ptrs_of_plain(ev));
    }
    out
}


/// The size of the tree a pointer owns: a shared pointer owns only
/// itself.
pub open spec fn ptr_size(p: PtrV) -> nat
    decreases p,
{
    match p {
        PtrV::Owned(b) => rt_size(*b),
        PtrV::Shared(_) => 1,
    }
}

/// The size of the tree a cell owns.
pub open spec fn rt_size(c: CellRt) -> nat
    decreases c,
{
    match c {
        CellRt::Prim(_) => 1,
        CellRt::Struct(s, _) => 1 + ptrs_size(s),
        CellRt::Array(s) => 1 + ptrs_size(s),
        CellRt::Optional(o) => match o {
            Some(b) => 1 + ptr_size(*b),
            None => 1,
        },
        CellRt::Mapping(s) => 1 + pairs_ptr_size(s),
        CellRt::Enum(s, _) => 1 + ptrs_size(s),
    }
}

/// The summed sizes of a list of pointers.
pub open spec fn ptrs_size(s: Seq<PtrV>) -> nat
    decreases s,
{
    if s.len() == 0 {
        0
    } else {
        ptr_size(s[0]) + ptrs_size(s.drop_first())
    }
}

/// The summed sizes of the value pointers of map entries.
pub open spec fn pairs_ptr_size(s: Seq<(CellV, PtrV)>) -> nat
    decreases s,
{
    if s.len() == 0 {
        0
    } else {
        ptr_size(s[0].1) + pairs_ptr_size(s.drop_first())
    }
}

/// The summed sizes of the live cells of the store.
pub open spec fn live_sum(slots: Seq<Option<CellRt>>) -> nat
    decreases slots,
{
    if slots.len() == 0 {
        0
    } else {
        (match slots[0] {
            Some(c) => rt_size(c),
            None => 0,
        }) + live_sum(slots.drop_first())
    }
}

/// Concatenation adds pointer sizes.
proof fn lemma_ptrs_size_concat(a: Seq<PtrV>, b: Seq<PtrV>)
    ensures
        ptrs_size(a + b) == ptrs_size(a) + ptrs_size(b),
    decreases a,
{
    if a.len() == 0 {
        assert(a + b =~= b);
    } else {
        assert((a + b).drop_first() =~= a.drop_first() + b);
        lemma_ptrs_size_concat(a.drop_first(), b);
    }
}

/// Appending one pointer adds its size.
proof fn lemma_ptrs_size_push(s: Seq<PtrV>, p: PtrV)
    ensures
        ptrs_size(s.push(p)) == ptrs_size(s) + ptr_size(p),
{
    assert(s.push(p) =~= s + seq![p]);
    assert(seq![p].drop_first() =~= Seq::<PtrV>::empty());
    assert(ptrs_size(Seq::<PtrV>::empty()) == 0);
    assert(seq![p][0] == p);
    assert(ptrs_size(seq![p]) == ptr_size(p));
    lemma_ptrs_size_concat(s, seq![p]);
}

/// Dropping the last pointer removes its size.
proof fn lemma_ptrs_size_pop(s: Seq<PtrV>)
    requires
        s.len() > 0,
    ensures
        ptrs_size(s) == ptrs_size(s.drop_last()) + ptr_size(s.last()),
{
    assert(s =~= s.drop_last().push(s.last()));
    lemma_ptrs_size_push(s.drop_last(), s.last());
}

/// Dropping the last map entry removes its value's size.
proof fn lemma_pairs_ptr_size_pop(s: Seq<(CellV, PtrV)>)
    requires
        s.len() > 0,
    ensures
        pairs_ptr_size(s) == pairs_ptr_size(s.drop_last()) + ptr_size(s.last().1),
    decreases s,
{
    if s.len() == 1 {
        assert(s.drop_last() =~= Seq::empty());
        assert(s.drop_first() =~= Seq::empty());
    } else {
        assert(s.drop_first().drop_last() =~= s.drop_last().drop_first());
        assert(s.drop_first().last() == s.last());
        assert(s.drop_last()[0] == s[0]);
        lemma_pairs_ptr_size_pop(s.drop_first());
    }
}

/// Killing one slot removes its cell's size from the store's sum.
proof fn lemma_live_sum_update(slots: Seq<Option<CellRt>>, i: int)
    requires
        0 <= i < slots.len(),
        slots[i] is Some,
    ensures
        live_sum(slots.update(i, None)) == live_sum(slots) - rt_size(slots[i].unwrap()),
    decreases slots,
{
    if i == 0 {
        assert(slots.update(0, None).drop_first() =~= slots.drop_first());
    } else {
        assert(slots.update(i, None)[0] == slots[0]);
        assert(slots.update(i, None).drop_first() =~= slots.drop_first().update(i - 1, None));
        lemma_live_sum_update(slots.drop_first(), i - 1);
    }
}

/// Tears a value down without recursion: children are walked with an
/// explicit work list, and each shared cell is emptied the first time
/// it is reached, so even cyclic graphs come apart, in one visit per
/// cell. The store keeps its slots; the cell the pointer names is dead
/// afterwards, and a dead slot never comes back to life here.
pub fn dismantle(p: ValuePointer, cells: &mut SharedCells)
    ensures
        (*final(cells))@.len() == (*old(cells))@.len(),
        p@ matches PtrV::Shared(i) ==> (slot_live((*old(cells))@, i) ==> !slot_live(
            (*final(cells))@,
            i,
        )),
        forall|j: int|
            0 <= j < (*old(cells))@.len() && !slot_live((*old(cells))@, j) ==> !slot_live(
                (*final(cells))@,
                j,
            ),
{
    let ghost root = p@;
    let mut stack: Vec<ValuePointer> = Vec::new();
    stack.push(p);
    proof {
        assert(ptrs_view(stack@).last() == root);
    }
    while stack.len() > 0
        invariant
            cells@.len() == (*old(cells))@.len(),
            forall|j: int|
                0 <= j < (*old(cells))@.len() && !slot_live((*old(cells))@, j) ==> !slot_live(
                    cells@,
                    j,
                ),
            (root matches PtrV::Shared(i) && slot_live(cells@, i)) ==> (stack@.len() > 0
                && ptrs_view(stack@).last() == root),
        decreases live_sum(cells@) + ptrs_size(ptrs_view(stack@)),
    {
        let ghost d0 = live_sum(cells@) + ptrs_size(ptrs_view(stack@));
        let ghost stack0 = stack@;
        let top = match stack.pop() {
            Some(t) => t,
            None => unreached(),
        };
        proof {
            assert(ptrs_view(stack0) =~= ptrs_view(stack@).push(ptr_view(top)));
            lemma_ptrs_size_push(ptrs_view(stack@), ptr_view(top));
        }
        match top.0 {
            ValuePointerInner::Owned(b) => {
                push_children(*b, &mut stack);
            },
            ValuePointerInner::Shared(i) => {
                if i < cells.len() && cells.is_live(i) {
                    let ghost slots0 = cells@;
                    let c = cells.take(i);
                    proof {
                        lemma_live_sum_update(slots0, i as int);
                    }
                    push_children(c, &mut stack);
                }
            },
        }
        proof {
            assert(live_sum(cells@) + ptrs_size(ptrs_view(stack@)) < d0);
        }
    }
    proof {
        assert(stack@.len() == 0);
    }
}

/// Drops a value without recursion and without touching the store: the
/// owned skeleton is walked with an explicit work list and shared
/// children are left alone, since other handles may still alias them.
/// Discarding is how the machine retires values it no longer holds.
pub fn discard(p: ValuePointer)
{
    let mut stack: Vec<ValuePointer> = Vec::new();
    stack.push(p);
    while stack.len() > 0
        decreases ptrs_size(ptrs_view(stack@)),
    {
        let ghost d0 = ptrs_size(ptrs_view(stack@));
        let ghost stack0 = stack@;
        let top = match stack.pop() {
            Some(t) => t,
            None => unreached(),
        };
        proof {
            assert(ptrs_view(stack0) =~= ptrs_view(stack@).push(ptr_view(top)));
            lemma_ptrs_size_push(ptrs_view(stack@), ptr_view(top));
        }
        match top.0 {
            ValuePointerInner::Owned(b) => {
                push_children(*b, &mut stack);
            },
            ValuePointerInner::Shared(_) => {},
        }
        proof {
            assert(ptrs_size(ptrs_view(stack@)) < d0);
        }
    }
}

/// Pushes every child pointer of a cell onto the work list; the cell's
/// own node and its plain content go away here.
fn push_children(c: ValueCell, stack: &mut Vec<ValuePointer>)
    ensures
        ptrs_size(ptrs_view((*final(stack))@)) + 1 == ptrs_size(ptrs_view((*old(stack))@))
            + rt_size(c@),
{
    match c {
        ValueCell::Default(_) => {},
        ValueCell::Struct(mut fields, _) => {
            proof {
                lemma_ptrs_size_concat(ptrs_view(old(stack)@), ptrs_view(fields@));
                assert(ptrs_view(old(stack)@ + fields@) =~= ptrs_view(old(stack)@) + ptrs_view(
                    fields@,
                ));
            }
            stack.append(&mut fields);
        },
        ValueCell::Array(mut elems) => {
            proof {
                lemma_ptrs_size_concat(ptrs_view(old(stack)@), ptrs_view(elems@));
                assert(ptrs_view(old(stack)@ + elems@) =~= ptrs_view(old(stack)@) + ptrs_view(
                    elems@,
                ));
            }
            stack.append(&mut elems);
        },
        ValueCell::Optional(o) => match o {
            Some(p) => {
                proof {
                    lemma_ptrs_size_push(ptrs_view(stack@), ptr_view(p));
                    assert(ptrs_view(stack@.push(p)) =~= ptrs_view(stack@).push(ptr_view(p)));
                }
                stack.push(p);
            },
            None => {},
        },
        ValueCell::Mapping(entries) => {
            let ghost total = pairs_ptr_size(rt_pairs_view(entries@));
            let mut rest = entries;
            while rest.len() > 0
                invariant
                    ptrs_size(ptrs_view(stack@)) + pairs_ptr_size(rt_pairs_view(rest@))
                        == ptrs_size(ptrs_view((*old(stack))@)) + total,
                decreases rest.len(),
            {
                let ghost rest0 = rest@;
                let (_, v) = match rest.pop() {
                    Some(e) => e,
                    None => unreached(),
                };
                proof {
                    assert(rt_pairs_view(rest@) =~= rt_pairs_view(rest0).drop_last());
                    assert(rt_pairs_view(rest0).last() == (cell_view(rest0.last().0), ptr_view(
                        rest0.last().1,
                    )));
                    lemma_pairs_ptr_size_pop(rt_pairs_view(rest0));
                    lemma_ptrs_size_push(ptrs_view(stack@), ptr_view(v));
                    assert(ptrs_view(stack@.push(v)) =~= ptrs_view(stack@).push(ptr_view(v)));
                }
                stack.push(v);
            }
            proof {
                assert(rt_pairs_view(rest@).len() == 0);
                assert(pairs_ptr_size(rt_pairs_view(rest@)) == 0);
            }
        },
        ValueCell::Enum(mut fields, _) => {
            proof {
                lemma_ptrs_size_concat(ptrs_view(old(stack)@), ptrs_view(fields@));
                assert(ptrs_view(old(stack)@ + fields@) =~= ptrs_view(old(stack)@) + ptrs_view(
                    fields@,
                ));
            }
            stack.append(&mut fields);
        },
    }
}

} // verus!
