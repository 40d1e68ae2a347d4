use vstd::prelude::*;

use crate::cells::{ptr_view, ptrs_view, PtrV, ValuePointer};
use crate::errors::VMError;

verus! {

broadcast use vstd::group_vstd_default;

/// How many values the operand stack may hold.
pub open spec fn spec_stack_capacity() -> int {
    256
}

/// The operand stack: a bounded stack of value pointers.
#[derive(Debug)]
pub struct Stack {
    values: Vec<ValuePointer>,
}

impl View for Stack {
    type V = Seq<PtrV>;

    closed spec fn view(&self) -> Seq<PtrV> {
        ptrs_view(self.values@)
    }
}

impl Stack {
    /// An empty stack.
    pub fn new() -> (r: Stack)
        ensures
            r@ =~= Seq::empty(),
    {
        let r = Stack { values: Vec::new() };
        proof {
            assert(r@.len() == 0);
        }
        r
    }

    /// How many values the stack holds.
    pub fn len(&self) -> (r: usize)
        ensures
            r == self@.len(),
    {
        proof {
            assert(self@.len() == self.values@.len());
        }
        self.values.len()
    }

    /// Pushes a value; a full stack overflows.
    pub fn push_stack(&mut self, value: ValuePointer) -> (r: Result<(), VMError>)
        ensures
            match r {
                Ok(()) => (*old(self))@.len() < spec_stack_capacity() && (*final(self))@ =~= (
                *old(self))@.push(value@),
                Err(e) => {
                    &&& (*old(self))@.len() >= spec_stack_capacity()
                    &&& *final(self) == *old(self)
                    &&& e == VMError::StackOverflow
                },
            },
    {
        proof {
            assert(self@.len() == self.values@.len());
        }
        if self.values.len() >= 256 {
            return Err(VMError::StackOverflow);
        }
        let ghost pv = value@;
        self.values.push(value);
        proof {
            assert(ptrs_view(self.values@) =~= ptrs_view(old(self).values@).push(pv));
        }
        Ok(())
    }

    /// Pushes a value into room the caller has already checked.
    pub fn push_stack_unchecked(&mut self, value: ValuePointer)
        requires
            (*old(self))@.len() < spec_stack_capacity(),
        ensures
            (*final(self))@ =~= (*old(self))@.push(value@),
    {
        let ghost pv = value@;
        self.values.push(value);
        proof {
            assert(ptrs_view(self.values@) =~= ptrs_view(old(self).values@).push(pv));
        }
    }

    /// Pops the top value; an empty stack underflows.
    pub fn pop_stack(&mut self) -> (r: Result<ValuePointer, VMError>)
        ensures
            match r {
                Ok(p) => {
                    &&& (*old(self))@.len() > 0
                    &&& p@ == (*old(self))@.last()
                    &&& (*final(self))@ =~= (*old(self))@.drop_last()
                },
                Err(e) => {
                    &&& (*old(self))@.len() == 0
                    &&& *final(self) == *old(self)
                    &&& e == VMError::StackUnderflow
                },
            },
    {
        proof {
            assert(self@.len() == self.values@.len());
        }
        if self.values.len() == 0 {
            return Err(VMError::StackUnderflow);
        }
        match self.values.pop() {
            Some(p) => {
                proof {
                    assert(ptr_view(old(self).values@.last()) == (*old(self))@.last());
                    assert(ptrs_view(self.values@) =~= ptrs_view(old(self).values@).drop_last());
                }
                Ok(p)
            },
            None => unreached(),
        }
    }

    /// Reads the top value without removing it.
    pub fn last_stack(&self) -> (r: Result<&ValuePointer, VMError>)
        ensures
            match r {
                Ok(p) => self@.len() > 0 && p@ == self@.last(),
                Err(e) => self@.len() == 0 && e == VMError::StackUnderflow,
            },
    {
        proof {
            assert(self@.len() == self.values@.len());
        }
        if self.values.len() == 0 {
            return Err(VMError::StackUnderflow);
        }
        let p = &self.values[self.values.len() - 1];
        proof {
            assert(ptrs_view(self.values@)[self.values@.len() - 1] == ptr_view(
                self.values@[self.values@.len() - 1],
            ));
        }
        Ok(p)
    }
}

} // verus!
