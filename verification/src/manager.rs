use vstd::prelude::*;

use crate::cells::{ptr_view, ptrs_view, PtrV, SharedCells, ValueCell, ValuePointer};
use crate::errors::VMError;
use crate::iterator::PathIterator;
use crate::values::Value;

verus! {

broadcast use vstd::group_vstd_default;

/// Per-frame state: the chunk's bytes, the program counter, the frame's
/// locals, and the frame's iterator stack.
pub struct ChunkManager {
    bytes: Vec<u8>,
    pc: usize,
    locals: Vec<ValuePointer>,
    iterators: Vec<PathIterator>,
}

impl ChunkManager {
    pub closed spec fn spec_bytes(&self) -> Seq<u8> {
        self.bytes@
    }

    pub closed spec fn spec_pc(&self) -> int {
        self.pc as int
    }

    pub closed spec fn spec_locals(&self) -> Seq<PtrV> {
        ptrs_view(self.locals@)
    }

    pub closed spec fn spec_iterators(&self) -> Seq<PathIterator> {
        self.iterators@
    }

    /// A frame at the start of a chunk, with its locals preloaded.
    pub fn new(bytes: Vec<u8>, locals: Vec<ValuePointer>) -> (r: ChunkManager)
        ensures
            r.spec_bytes() == bytes@,
            r.spec_pc() == 0,
            r.spec_locals() == ptrs_view(locals@),
            r.spec_iterators() =~= Seq::<PathIterator>::empty(),
    {
        ChunkManager { bytes, pc: 0, locals, iterators: Vec::new() }
    }

    /// The program counter.
    pub fn pc(&self) -> (r: usize)
        ensures
            r == self.spec_pc(),
    {
        self.pc
    }

    /// Whether the program counter has passed the end of the chunk.
    pub fn at_end(&self) -> (r: bool)
        ensures
            r == (self.spec_pc() >= self.spec_bytes().len()),
    {
        self.pc >= self.bytes.len()
    }

    /// Moves the program counter.
    pub fn set_pc(&mut self, pc: usize)
        ensures
            final(self).spec_pc() == pc,
            final(self).spec_bytes() == old(self).spec_bytes(),
            final(self).spec_locals() == old(self).spec_locals(),
            final(self).spec_iterators() == old(self).spec_iterators(),
    {
        self.pc = pc;
    }

    /// Reads the next byte and advances past it.
    pub fn read_u8(&mut self) -> (r: Result<u8, VMError>)
        ensures
            match r {
                Ok(b) => {
                    &&& old(self).spec_pc() < old(self).spec_bytes().len()
                    &&& b == old(self).spec_bytes()[old(self).spec_pc()]
                    &&& final(self).spec_pc() == old(self).spec_pc() + 1
                },
                Err(e) => {
                    &&& old(self).spec_pc() >= old(self).spec_bytes().len()
                    &&& *final(self) == *old(self)
                    &&& e == VMError::EndOfChunk
                },
            },
            final(self).spec_bytes() == old(self).spec_bytes(),
            final(self).spec_locals() == old(self).spec_locals(),
            final(self).spec_iterators() == old(self).spec_iterators(),
    {
        if self.pc < self.bytes.len() {
            let b = self.bytes[self.pc];
            self.pc = self.pc + 1;
            Ok(b)
        } else {
            Err(VMError::EndOfChunk)
        }
    }

    /// Reads the next two bytes as a little-endian word.
    pub fn read_u16(&mut self) -> (r: Result<u16, VMError>)
        ensures
            match r {
                Ok(w) => {
                    &&& old(self).spec_pc() + 2 <= old(self).spec_bytes().len()
                    &&& w == old(self).spec_bytes()[old(self).spec_pc()] + 256 * old(
                        self,
                    ).spec_bytes()[old(self).spec_pc() + 1]
                    &&& final(self).spec_pc() == old(self).spec_pc() + 2
                },
                Err(e) => {
                    &&& old(self).spec_pc() + 2 > old(self).spec_bytes().len()
                    &&& *final(self) == *old(self)
                    &&& e == VMError::EndOfChunk
                },
            },
            final(self).spec_bytes() == old(self).spec_bytes(),
            final(self).spec_locals() == old(self).spec_locals(),
            final(self).spec_iterators() == old(self).spec_iterators(),
    {
        if self.bytes.len() >= 2 && self.pc <= self.bytes.len() - 2 {
            let lo = self.bytes[self.pc];
            let hi = self.bytes[self.pc + 1];
            self.pc = self.pc + 2;
            Ok(lo as u16 + 256 * (hi as u16))
        } else {
            Err(VMError::EndOfChunk)
        }
    }

    /// Stores a value in a local slot, growing the slot table with
    /// nulls as needed; the value the slot held before comes back, so
    /// the caller can retire it without recursion.
    pub fn store_local(&mut self, slot: u8, value: ValuePointer) -> (r: ValuePointer)
        ensures
            final(self).spec_locals().len() >= slot + 1,
            final(self).spec_locals()[slot as int] == value@,
            r@ == if (slot as int) < old(self).spec_locals().len() {
                old(self).spec_locals()[slot as int]
            } else {
                PtrV::Owned(Box::new(crate::cells::CellRt::Prim(crate::values::ValueV::Null)))
            },
            forall|j: int|
                0 <= j < final(self).spec_locals().len() && j != slot
                    ==> #[trigger] final(self).spec_locals()[j] == if j < old(
                    self,
                ).spec_locals().len() {
                    old(self).spec_locals()[j]
                } else {
                    PtrV::Owned(Box::new(crate::cells::CellRt::Prim(crate::values::ValueV::Null)))
                },
            final(self).spec_bytes() == old(self).spec_bytes(),
            final(self).spec_pc() == old(self).spec_pc(),
            final(self).spec_iterators() == old(self).spec_iterators(),
    {
        let ghost locs0 = ptrs_view(self.locals@);
        while self.locals.len() < slot as usize + 1
            invariant
                self.spec_bytes() == old(self).spec_bytes(),
                self.spec_pc() == old(self).spec_pc(),
                self.spec_iterators() == old(self).spec_iterators(),
                locs0 == old(self).spec_locals(),
                ptrs_view(self.locals@).len() >= locs0.len(),
                forall|j: int|
                    0 <= j < ptrs_view(self.locals@).len() ==> #[trigger] ptrs_view(
                        self.locals@,
                    )[j] == if j < locs0.len() {
                        locs0[j]
                    } else {
                        PtrV::Owned(
                            Box::new(crate::cells::CellRt::Prim(crate::values::ValueV::Null)),
                        )
                    },
            decreases slot as int + 1 - self.locals@.len(),
        {
            let ghost prev = self.locals@;
            self.locals.push(ValuePointer::owned(ValueCell::Default(Value::Null)));
            proof {
                assert(ptrs_view(self.locals@).len() == prev.len() + 1);
                assert(forall|j: int|
                    0 <= j < prev.len() ==> #[trigger] ptrs_view(self.locals@)[j] == ptrs_view(
                        prev,
                    )[j]);
                assert(ptrs_view(self.locals@)[prev.len() as int] == ptr_view(
                    self.locals@[prev.len() as int],
                ));
            }
        }
        let ghost pv = value@;
        let ghost prev = self.locals@;
        let mut displaced = value;
        core::mem::swap(&mut self.locals[slot as usize], &mut displaced);
        proof {
            assert(forall|j: int|
                0 <= j < prev.len() && j != slot ==> #[trigger] ptrs_view(self.locals@)[j]
                    == ptrs_view(prev)[j]);
            assert(ptrs_view(self.locals@)[slot as int] == pv);
            assert(ptrs_view(prev)[slot as int] == ptr_view(prev[slot as int]));
        }
        displaced
    }

    /// A pointer to the value in a local slot, aliasing it: the local
    /// becomes a shared cell if it was owned.
    pub fn load_local(&mut self, slot: u8, cells: &mut SharedCells) -> (r: Result<
        ValuePointer,
        VMError,
    >)
        ensures
            match r {
                Ok(p) => {
                    &&& slot < old(self).spec_locals().len()
                    &&& p@ is Shared
                    &&& final(self).spec_locals().len() == old(self).spec_locals().len()
                    &&& final(self).spec_locals()[slot as int] == p@
                    &&& forall|j: int|
                        0 <= j < old(self).spec_locals().len() && j != slot
                            ==> #[trigger] final(self).spec_locals()[j]
                            == old(self).spec_locals()[j]
                    &&& match old(self).spec_locals()[slot as int] {
                        PtrV::Owned(b) => p@ == PtrV::Shared((*old(cells))@.len() as int) && (
                        *final(cells))@ =~= (*old(cells))@.push(Some(*b)),
                        PtrV::Shared(i) => p@ == PtrV::Shared(i) && (*final(cells))@ == (*old(
                            cells,
                        ))@,
                    }
                },
                Err(e) => {
                    &&& slot >= old(self).spec_locals().len()
                    &&& *final(self) == *old(self)
                    &&& (*final(cells))@ == (*old(cells))@
                    &&& e == VMError::RegisterNotFound
                },
            },
            final(self).spec_bytes() == old(self).spec_bytes(),
            final(self).spec_pc() == old(self).spec_pc(),
            final(self).spec_iterators() == old(self).spec_iterators(),
    {
        proof {
            assert(ptrs_view(self.locals@).len() == self.locals@.len());
        }
        if (slot as usize) < self.locals.len() {
            let ghost prev = self.locals@;
            let p = &mut self.locals[slot as usize];
            let np = p.transform(cells);
            proof {
                assert(forall|j: int|
                    0 <= j < prev.len() && j != slot ==> #[trigger] ptrs_view(self.locals@)[j]
                        == ptrs_view(prev)[j]);
                assert(ptrs_view(self.locals@)[slot as int] == ptr_view(
                    self.locals@[slot as int],
                ));
                assert(ptrs_view(prev)[slot as int] == ptr_view(prev[slot as int]));
            }
            Ok(np)
        } else {
            Err(VMError::RegisterNotFound)
        }
    }

    /// Retires a finished frame: every local and every open iterator's
    /// container is discarded without recursion; shared cells they
    /// alias stay in the store for the handles that remain.
    pub fn retire(self) {
        let mut locals = self.locals;
        while locals.len() > 0
            decreases locals@.len(),
        {
            match locals.pop() {
                Some(p) => {
                    crate::cells::discard(p);
                },
                None => unreached(),
            }
        }
        let mut iterators = self.iterators;
        while iterators.len() > 0
            decreases iterators@.len(),
        {
            match iterators.pop() {
                Some(it) => {
                    crate::cells::discard(it.into_inner());
                },
                None => unreached(),
            }
        }
    }

    /// Pushes an iterator onto the frame's iterator stack.
    pub fn push_iterator(&mut self, it: PathIterator)
        ensures
            final(self).spec_iterators() == old(self).spec_iterators().push(it),
            final(self).spec_bytes() == old(self).spec_bytes(),
            final(self).spec_pc() == old(self).spec_pc(),
            final(self).spec_locals() == old(self).spec_locals(),
    {
        self.iterators.push(it);
    }

    /// Pops the innermost iterator.
    pub fn pop_iterator(&mut self) -> (r: Result<PathIterator, VMError>)
        ensures
            match r {
                Ok(it) => old(self).spec_iterators().len() > 0 && it == old(
                    self,
                ).spec_iterators().last() && final(self).spec_iterators() == old(
                    self,
                ).spec_iterators().drop_last(),
                Err(e) => {
                    &&& old(self).spec_iterators().len() == 0
                    &&& *final(self) == *old(self)
                    &&& e == VMError::EmptyIterator
                },
            },
            final(self).spec_bytes() == old(self).spec_bytes(),
            final(self).spec_pc() == old(self).spec_pc(),
            final(self).spec_locals() == old(self).spec_locals(),
    {
        if self.iterators.len() == 0 {
            return Err(VMError::EmptyIterator);
        }
        match self.iterators.pop() {
            Some(it) => Ok(it),
            None => unreached(),
        }
    }

    /// Steps the innermost iterator; the next element, or nothing when
    /// it is exhausted. With no active iterator the step is a fault;
    /// otherwise the result is exactly one step of the innermost
    /// iterator, the others untouched.
    pub fn iter_next(&mut self, cells: &mut SharedCells) -> (r: Result<
        Option<ValuePointer>,
        VMError,
    >)
        ensures
            old(self).spec_iterators().len() == 0 ==> (r matches Err(e) && e
                == VMError::EmptyIterator && *final(self) == *old(self) && (*final(cells))@ == (
            *old(cells))@),
            old(self).spec_iterators().len() > 0 ==> {
                &&& final(self).spec_iterators().len() == old(self).spec_iterators().len()
                &&& forall|j: int|
                    0 <= j < old(self).spec_iterators().len() - 1
                        ==> #[trigger] final(self).spec_iterators()[j]
                        == old(self).spec_iterators()[j]
                &&& match r {
                    Ok(o) => crate::iterator::spec_iter_step(
                        old(self).spec_iterators().last(),
                        final(self).spec_iterators().last(),
                        (*old(cells))@,
                        (*final(cells))@,
                        Ok(o),
                    ),
                    Err(e) => e matches VMError::ValueError(ve) && crate::iterator::spec_iter_step(
                        old(self).spec_iterators().last(),
                        final(self).spec_iterators().last(),
                        (*old(cells))@,
                        (*final(cells))@,
                        Err(ve),
                    ),
                }
            },
            final(self).spec_bytes() == old(self).spec_bytes(),
            final(self).spec_pc() == old(self).spec_pc(),
            final(self).spec_locals() == old(self).spec_locals(),
    {
        if self.iterators.len() == 0 {
            return Err(VMError::EmptyIterator);
        }
        let n = self.iterators.len();
        let it = &mut self.iterators[n - 1];
        match it.next(cells) {
            Ok(o) => Ok(o),
            Err(e) => Err(VMError::ValueError(e)),
        }
    }
}

} // verus!
