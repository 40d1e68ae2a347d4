use vstd::prelude::*;

use crate::cells::{SharedCells, ValueCell, ValuePointer, ValuePointerInner, WeakValue};
use crate::constructor;
use crate::environment::{Context, Environment};
use crate::errors::{EnvironmentError, VMError, ValueError};
use crate::manager::ChunkManager;
use crate::module::{Module, OpCode};
use crate::path::Path;
use crate::stack::Stack;
use crate::validator::{spec_tables, spec_verify_module, ModuleValidator};
use crate::value_type::ValueType;
use crate::values::Value;

verus! {

broadcast use vstd::group_vstd_default;

/// What one executed instruction asks of the driving loop.
pub enum StepResult {
    /// Go on in the same frame.
    Nothing,
    /// Enter the chunk with this id, with these locals preloaded.
    InvokeChunk(u16, Vec<ValuePointer>),
    /// Leave the current frame.
    Return,
}

/// The virtual machine: a module and an environment to run it against,
/// the operand stack, the shared cell store, the call frames, and the
/// gas meter.
pub struct VM<'a> {
    module: &'a Module,
    environment: &'a Environment,
    stack: Stack,
    cells: SharedCells,
    frames: Vec<ChunkManager>,
    context: Context,
    terminated: bool,
}

impl<'a> VM<'a> {
    pub closed spec fn spec_module(&self) -> Module {
        *self.module
    }

    pub closed spec fn spec_environment(&self) -> Environment {
        *self.environment
    }

    pub closed spec fn spec_context(&self) -> Context {
        self.context
    }

    pub closed spec fn spec_terminated(&self) -> bool {
        self.terminated
    }

    pub closed spec fn spec_stack(&self) -> Seq<crate::cells::PtrV> {
        self.stack@
    }

    pub closed spec fn spec_cells(&self) -> Seq<Option<crate::cells::CellRt>> {
        self.cells@
    }

    /// A machine over a module and environment, with the given gas
    /// budget.
    pub fn new(module: &'a Module, environment: &'a Environment, gas_limit: u64) -> (r: VM<'a>)
        ensures
            r.spec_module() == *module,
            r.spec_environment() == *environment,
            r.spec_context().spec_gas_limit() == gas_limit,
            r.spec_context().spec_gas_used() == 0,
            r.spec_context().wf(),
            !r.spec_terminated(),
    {
        VM {
            module,
            environment,
            stack: Stack::new(),
            cells: SharedCells::new(),
            frames: Vec::new(),
            context: Context::new(gas_limit),
            terminated: false,
        }
    }

    /// The gas spent so far.
    pub fn gas_used(&self) -> (r: u64)
        ensures
            r == self.spec_context().spec_gas_used(),
    {
        self.context.gas_used()
    }

    /// Runs an entry chunk on the given arguments: the arguments go
    /// onto the operand stack, the chunk runs, and the result is the
    /// plain form of the value then on top of the stack, null if the
    /// stack is empty. The module is validated first: a module the
    /// validator refuses never executes, and the validator's fault is
    /// the result. A machine that has faulted stays terminal: every
    /// later invocation fails without running anything.
    pub fn invoke_entry_chunk(&mut self, id: u16, args: Vec<ValueType>) -> (r: Result<
        ValueType,
        VMError,
    >)
        requires
            old(self).spec_context().wf(),
        ensures
            old(self).spec_terminated() ==> r == Err::<ValueType, _>(VMError::Terminated)
                && *final(self) == *old(self),
            !old(self).spec_terminated() ==> (spec_verify_module(
                old(self).spec_module(),
                spec_tables(old(self).spec_module(), old(self).spec_environment()),
            ) matches Err(e) ==> r == Err::<ValueType, _>(VMError::Validation(e))),
            r matches Err(ve) ==> (ve matches VMError::Validation(e) ==> spec_verify_module(
                old(self).spec_module(),
                spec_tables(old(self).spec_module(), old(self).spec_environment()),
            ) == Err::<(), _>(e)),
            !old(self).spec_terminated() && spec_verify_module(
                old(self).spec_module(),
                spec_tables(old(self).spec_module(), old(self).spec_environment()),
            ) is Ok && id >= old(self).spec_module().chunks@.len() ==> r == Err::<ValueType, _>(
                VMError::ChunkNotFound,
            ),
            r == Err::<ValueType, _>(VMError::OutOfGas) ==> final(self).spec_context().spec_gas_used()
                == final(self).spec_context().spec_gas_limit(),
            r matches Ok(v) ==> if final(self).spec_stack().len() == 0 {
                v@ == crate::value_type::CellV::Prim(crate::values::ValueV::Null)
            } else {
                crate::cells::resolve_cell(final(self).spec_stack().last(), final(self).spec_cells())
                    matches Some(c) && crate::cells::rt_plain(c) == Some(v@)
            },
            r is Err ==> final(self).spec_terminated(),
            r is Ok ==> final(self).spec_terminated() == old(self).spec_terminated(),
            final(self).spec_context().spec_gas_limit() == old(
                self,
            ).spec_context().spec_gas_limit(),
            r is Ok ==> final(self).spec_context().wf(),
            r is Ok ==> final(self).spec_context().spec_gas_used()
                == crate::environment::charges_sum(final(self).spec_context().spec_charges()),
            final(self).spec_context().spec_gas_used() <= final(self).spec_context().spec_gas_limit(),
    {
        if self.terminated {
            return Err(VMError::Terminated);
        }
        let validator = ModuleValidator::new(self.module, self.environment);
        match validator.verify() {
            Ok(()) => {},
            Err(e) => {
                self.terminated = true;
                return Err(VMError::Validation(e));
            },
        }
        if (id as usize) >= self.module.chunks.len() {
            self.terminated = true;
            return Err(VMError::ChunkNotFound);
        }
        let mut rest = args;
        while rest.len() > 0
            invariant
                old(self).spec_context().wf(),
                self.spec_context() == old(self).spec_context(),
                self.spec_module() == old(self).spec_module(),
                self.spec_environment() == old(self).spec_environment(),
                spec_verify_module(
                    old(self).spec_module(),
                    spec_tables(old(self).spec_module(), old(self).spec_environment()),
                ) is Ok,
                (id as int) < old(self).spec_module().chunks@.len(),
                !old(self).spec_terminated(),
                !self.spec_terminated(),
            decreases rest@.len(),
        {
            let a = rest.remove(0);
            match self.stack.push_stack(ValuePointer::owned(a.to_cell())) {
                Ok(()) => {},
                Err(e) => {
                    self.terminated = true;
                    return Err(e);
                },
            }
        }
        let bytes = clone_bytes(&self.module.chunks[id as usize].bytes);
        let frame = ChunkManager::new(bytes, Vec::new());
        self.frames.push(frame);
        match self.run() {
            Ok(()) => {},
            Err(e) => {
                return Err(e);
            },
        }
        if self.stack.len() == 0 {
            return Ok(ValueType::Default(Value::Null));
        }
        let top = match self.stack.last_stack() {
            Ok(p) => p,
            Err(_) => unreached(),
        };
        let cell = match top.to_value(&self.cells) {
            Ok(c) => c,
            Err(e) => {
                self.terminated = true;
                return Err(VMError::ValueError(e));
            },
        };
        match cell.to_plain() {
            Ok(v) => Ok(v),
            Err(e) => {
                self.terminated = true;
                Err(VMError::ValueError(e))
            },
        }
    }

    /// Drives fetch, decode and dispatch until the outermost frame
    /// returns or a fault stops the machine. Every instruction charges
    /// gas first, so a finite budget bounds the run; a fault leaves the
    /// machine terminal, and a terminal machine refuses to run.
    pub fn run(&mut self) -> (r: Result<(), VMError>)
        requires
            old(self).spec_context().wf(),
        ensures
            old(self).spec_terminated() ==> r == Err::<(), _>(VMError::Terminated) && *final(self)
                == *old(self),
            !old(self).spec_terminated() ==> (spec_verify_module(
                old(self).spec_module(),
                spec_tables(old(self).spec_module(), old(self).spec_environment()),
            ) matches Err(e) ==> r == Err::<(), _>(VMError::Validation(e))),
            r == Err::<(), _>(VMError::OutOfGas) ==> final(self).spec_context().spec_gas_used()
                == final(self).spec_context().spec_gas_limit(),
            r matches Err(ve) ==> (ve matches VMError::Validation(e) ==> spec_verify_module(
                old(self).spec_module(),
                spec_tables(old(self).spec_module(), old(self).spec_environment()),
            ) == Err::<(), _>(e)),
            r == Err::<(), _>(VMError::Terminated) ==> old(self).spec_terminated(),
            r is Err ==> final(self).spec_terminated(),
            r is Ok ==> final(self).spec_terminated() == old(self).spec_terminated(),
            r is Ok ==> final(self).spec_context().wf(),
            final(self).spec_context().spec_gas_used() <= final(self).spec_context().spec_gas_limit(),
            final(self).spec_context().spec_gas_limit() == old(
                self,
            ).spec_context().spec_gas_limit(),
    {
        if self.terminated {
            return Err(VMError::Terminated);
        }
        let validator = ModuleValidator::new(self.module, self.environment);
        match validator.verify() {
            Ok(()) => {},
            Err(e) => {
                self.terminated = true;
                return Err(VMError::Validation(e));
            },
        }
        while self.frames.len() > 0
            invariant
                self.spec_module() == old(self).spec_module(),
                self.spec_environment() == old(self).spec_environment(),
                spec_verify_module(
                    self.spec_module(),
                    spec_tables(self.spec_module(), self.spec_environment()),
                ) is Ok,
                self.spec_context().wf(),
                !old(self).spec_terminated(),
                self.spec_terminated() == old(self).spec_terminated(),
                self.spec_context().spec_gas_limit() == old(
                    self,
                ).spec_context().spec_gas_limit(),
            decreases
                    self.spec_context().spec_gas_limit() - self.spec_context().spec_gas_used(),
                    self.frames@.len(),
        {
            let mut frame = match self.frames.pop() {
                Some(f) => f,
                None => unreached(),
            };
            if frame.at_end() {
                retire_frame(frame);
                continue ;
            }
            let step = match self.step(&mut frame) {
                Ok(s) => s,
                Err(e) => {
                    self.terminated = true;
                    return Err(e);
                },
            };
            match step {
                StepResult::Nothing => {
                    self.frames.push(frame);
                },
                StepResult::InvokeChunk(id, locals) => {
                    if (id as usize) >= self.module.chunks.len() {
                        self.terminated = true;
                        return Err(VMError::ChunkNotFound);
                    }
                    let bytes = clone_bytes(&self.module.chunks[id as usize].bytes);
                    let callee = ChunkManager::new(bytes, locals);
                    self.frames.push(frame);
                    self.frames.push(callee);
                },
                StepResult::Return => {
                    retire_frame(frame);
                },
            }
        }
        Ok(())
    }

    /// Executes one instruction of the given frame. One unit of gas is
    /// charged for the instruction itself before anything runs; native
    /// calls charge their declared cost on top.
    #[verifier::rlimit(100)]
    fn step(&mut self, frame: &mut ChunkManager) -> (r: Result<StepResult, VMError>)
        requires
            old(self).spec_context().wf(),
        ensures
            match r {
                Ok(_) => {
                    &&& final(self).spec_context().wf()
                    &&& final(self).spec_context().spec_gas_used() >= old(
                        self,
                    ).spec_context().spec_gas_used() + 1
                },
                Err(e) => (e == VMError::OutOfGas ==> final(self).spec_context().spec_gas_used()
                    == final(self).spec_context().spec_gas_limit()) && !(e is Validation) && e
                    != VMError::Terminated,
            },
            final(self).spec_terminated() == old(self).spec_terminated(),
            old(self).spec_context().wf() ==> final(self).spec_context().spec_gas_used() <= final(self).spec_context().spec_gas_limit(),
            final(self).spec_context().spec_gas_limit() == old(
                self,
            ).spec_context().spec_gas_limit(),
            final(self).spec_module() == old(self).spec_module(),
            final(self).spec_environment() == old(self).spec_environment(),
    {
        match self.context.increase_gas_usage(1) {
            Ok(()) => {},
            Err(_) => {
                return Err(VMError::OutOfGas);
            },
        }
        let byte = match frame.read_u8() {
            Ok(b) => b,
            Err(e) => {
                return Err(e);
            },
        };
        let op = match OpCode::from_byte(byte) {
            Some(op) => op,
            None => {
                return Err(VMError::InvalidOpCode);
            },
        };
        match op {
            OpCode::LoadConst => {
                let id = read_u16(frame)?;
                if (id as usize) >= self.module.constants.len() {
                    return Err(VMError::ConstantNotFound);
                }
                let cell = self.module.constants[id as usize].to_cell();
                push(&mut self.stack, ValuePointer::owned(cell))?;
                Ok(StepResult::Nothing)
            },
            OpCode::LoadLocal => {
                let slot = read_u8(frame)?;
                let p = match frame.load_local(slot, &mut self.cells) {
                    Ok(p) => p,
                    Err(e) => {
                        return Err(e);
                    },
                };
                push(&mut self.stack, p)?;
                Ok(StepResult::Nothing)
            },
            OpCode::StoreLocal => {
                let slot = read_u8(frame)?;
                let p = pop(&mut self.stack)?;
                let displaced = frame.store_local(slot, p);
                crate::cells::discard(displaced);
                Ok(StepResult::Nothing)
            },
            OpCode::Pop => {
                let p = pop(&mut self.stack)?;
                crate::cells::discard(p);
                Ok(StepResult::Nothing)
            },
            OpCode::Copy => {
                let p = match self.stack.last_stack() {
                    Ok(p) => p.clone(),
                    Err(e) => {
                        return Err(e);
                    },
                };
                push(&mut self.stack, p)?;
                Ok(StepResult::Nothing)
            },
            OpCode::Swap => {
                let a = pop(&mut self.stack)?;
                let b = pop(&mut self.stack)?;
                push(&mut self.stack, a)?;
                push(&mut self.stack, b)?;
                Ok(StepResult::Nothing)
            },
            OpCode::Jump => {
                let offset = read_u16(frame)?;
                jump_relative(frame, offset)?;
                Ok(StepResult::Nothing)
            },
            OpCode::JumpIfFalse => {
                let offset = read_u16(frame)?;
                let p = pop(&mut self.stack)?;
                let b = self.pointer_to_bool(p)?;
                if !b {
                    jump_relative(frame, offset)?;
                }
                Ok(StepResult::Nothing)
            },
            OpCode::Call => {
                let id = read_u16(frame)?;
                let argc = read_u8(frame)?;
                if self.stack.len() < argc as usize {
                    return Err(VMError::StackUnderflow);
                }
                let locals = constructor::pop_count(&mut self.stack, argc as usize);
                Ok(StepResult::InvokeChunk(id, locals))
            },
            OpCode::InvokeNative => {
                let id = read_u16(frame)?;
                let argc = read_u8(frame)?;
                self.invoke_native(id, argc)?;
                Ok(StepResult::Nothing)
            },
            OpCode::Return => Ok(StepResult::Return),
            OpCode::NewArray => {
                match constructor::new_array(&mut self.stack, frame, &mut self.context) {
                    Ok(()) => Ok(StepResult::Nothing),
                    Err(e) => Err(e),
                }
            },
            OpCode::NewStruct => {
                match constructor::new_struct(
                    self.module,
                    self.environment,
                    &mut self.stack,
                    frame,
                    &mut self.context,
                ) {
                    Ok(()) => Ok(StepResult::Nothing),
                    Err(e) => Err(e),
                }
            },
            OpCode::NewMap => {
                match constructor::new_map(&mut self.stack, frame, &self.cells, &mut self.context) {
                    Ok(()) => Ok(StepResult::Nothing),
                    Err(e) => Err(e),
                }
            },
            OpCode::NewRange => {
                match constructor::new_range(&mut self.stack, &self.cells, &mut self.context) {
                    Ok(()) => Ok(StepResult::Nothing),
                    Err(e) => Err(e),
                }
            },
            OpCode::NewEnum => {
                match constructor::new_enum(
                    self.module,
                    self.environment,
                    &mut self.stack,
                    frame,
                    &mut self.context,
                ) {
                    Ok(()) => Ok(StepResult::Nothing),
                    Err(e) => Err(e),
                }
            },
            OpCode::SubLoad => {
                let index = read_u8(frame)?;
                let p = pop(&mut self.stack)?;
                let field = match p.get_field_at(index as usize, &mut self.cells) {
                    Ok(f) => f,
                    Err(e) => {
                        return Err(VMError::ValueError(e));
                    },
                };
                push(&mut self.stack, field)?;
                Ok(StepResult::Nothing)
            },
            OpCode::SubStore => {
                let index = read_u8(frame)?;
                let value = pop(&mut self.stack)?;
                let container = pop(&mut self.stack)?;
                self.sub_store(container, index, value)?;
                Ok(StepResult::Nothing)
            },
            OpCode::MapGet => {
                let key_ptr = pop(&mut self.stack)?;
                let map_ptr = pop(&mut self.stack)?;
                self.map_get(map_ptr, key_ptr)?;
                Ok(StepResult::Nothing)
            },
            OpCode::MapSet => {
                let value = pop(&mut self.stack)?;
                let key_ptr = pop(&mut self.stack)?;
                let map_ptr = pop(&mut self.stack)?;
                self.map_set(map_ptr, key_ptr, value)?;
                Ok(StepResult::Nothing)
            },
            OpCode::ArrayLen => {
                let p = pop(&mut self.stack)?;
                let cell = match p.handle(&self.cells) {
                    Ok(c) => c,
                    Err(e) => {
                        return Err(VMError::ValueError(e));
                    },
                };
                let n: usize = match cell {
                    ValueCell::Array(elems) => elems.len(),
                    _ => {
                        return Err(VMError::ValueError(ValueError::InvalidValueType));
                    },
                };
                let truncated: u32 = ((n as u64) % 0x1_0000_0000) as u32;
                push(
                    &mut self.stack,
                    ValuePointer::owned(ValueCell::Default(Value::U32(truncated))),
                )?;
                Ok(StepResult::Nothing)
            },
            OpCode::IterBegin => {
                let mut p = pop(&mut self.stack)?;
                let iterable = match p.handle(&self.cells) {
                    Ok(c) => match c {
                        ValueCell::Array(_) => true,
                        ValueCell::Default(Value::Range(_, _, _)) => true,
                        _ => false,
                    },
                    Err(e) => {
                        return Err(VMError::ValueError(e));
                    },
                };
                if !iterable {
                    return Err(VMError::InvalidIterable);
                }
                let shared = p.transform(&mut self.cells);
                let it = match crate::iterator::PathIterator::new(shared, &self.cells) {
                    Ok(it) => it,
                    Err(e) => {
                        return Err(VMError::ValueError(e));
                    },
                };
                frame.push_iterator(it);
                Ok(StepResult::Nothing)
            },
            OpCode::IterNext => {
                let offset = read_u16(frame)?;
                match frame.iter_next(&mut self.cells) {
                    Ok(Some(p)) => {
                        push(&mut self.stack, p)?;
                    },
                    Ok(None) => {
                        jump_relative(frame, offset)?;
                    },
                    Err(e) => {
                        return Err(e);
                    },
                }
                Ok(StepResult::Nothing)
            },
            OpCode::IterEnd => {
                match frame.pop_iterator() {
                    Ok(it) => {
                        crate::cells::discard(it.into_inner());
                        Ok(StepResult::Nothing)
                    },
                    Err(e) => Err(e),
                }
            },
            OpCode::CastTo => {
                let tag = read_u8(frame)?;
                let p = pop(&mut self.stack)?;
                self.cast_top(p, tag)?;
                Ok(StepResult::Nothing)
            },
            OpCode::Not => {
                let p = pop(&mut self.stack)?;
                let b = self.pointer_to_bool(p)?;
                push(
                    &mut self.stack,
                    ValuePointer::owned(ValueCell::Default(Value::Boolean(!b))),
                )?;
                Ok(StepResult::Nothing)
            },
            OpCode::Neg => Err(VMError::ValueError(ValueError::OperationNotNumberType)),
            _ => {
                let b = pop(&mut self.stack)?;
                let a = pop(&mut self.stack)?;
                let out = self.binary_op(op, a, b)?;
                push(&mut self.stack, ValuePointer::owned(ValueCell::Default(out)))?;
                Ok(StepResult::Nothing)
            },
        }
    }

    /// Pops a boolean.
    fn pointer_to_bool(&self, p: ValuePointer) -> (r: Result<bool, VMError>)
        ensures
            r matches Err(e) ==> e != VMError::OutOfGas && !(e is Validation) && e
                != VMError::Terminated,
    {
        let cell = match p.into_value(&self.cells) {
            Ok(c) => c,
            Err(e) => {
                return Err(VMError::ValueError(e));
            },
        };
        match cell {
            ValueCell::Default(Value::Boolean(b)) => Ok(b),
            _ => Err(VMError::ValueError(ValueError::InvalidValueType)),
        }
    }

    /// Calls the native function with the given id on `argc` popped
    /// arguments, plus a receiver when the function declares one, and
    /// pushes its result.
    fn invoke_native(&mut self, id: u16, argc: u8) -> (r: Result<(), VMError>)
        requires
            old(self).spec_context().wf(),
        ensures
            r is Ok ==> final(self).spec_context().wf(),
            old(self).spec_context().wf() ==> final(self).spec_context().spec_gas_used() <= final(self).spec_context().spec_gas_limit(),
            final(self).spec_context().spec_gas_limit() == old(
                self,
            ).spec_context().spec_gas_limit(),
            final(self).spec_context().spec_gas_used() >= old(
                self,
            ).spec_context().spec_gas_used(),
            r == Err::<(), _>(VMError::OutOfGas) ==> final(self).spec_context().spec_gas_used()
                == final(self).spec_context().spec_gas_limit(),
            r matches Err(e) ==> !(e is Validation) && e != VMError::Terminated,
            final(self).spec_terminated() == old(self).spec_terminated(),
            final(self).spec_module() == old(self).spec_module(),
            final(self).spec_environment() == old(self).spec_environment(),
    {
        let function = match self.environment.get_function_by_id(id as usize) {
            Some(f) => f,
            None => {
                return Err(VMError::UnknownNativeFunction);
            },
        };
        let mut params: Vec<Path> = Vec::new();
        let mut i: usize = 0;
        while i < argc as usize
            invariant
                self.spec_context() == old(self).spec_context(),
                self.spec_context().wf(),
                self.spec_module() == old(self).spec_module(),
                self.spec_environment() == old(self).spec_environment(),
                self.spec_terminated() == old(self).spec_terminated(),
            decreases argc as int - i,
        {
            let p = match self.stack.pop_stack() {
                Ok(p) => p,
                Err(e) => {
                    return Err(e);
                },
            };
            params.push(pointer_to_path(p));
            i += 1;
        }
        let has_receiver = function.has_receiver();
        let receiver: Option<ValueCell> = if has_receiver {
            let p = match self.stack.pop_stack() {
                Ok(p) => p,
                Err(e) => {
                    return Err(e);
                },
            };
            match p.into_value(&self.cells) {
                Ok(c) => Some(c),
                Err(e) => {
                    return Err(VMError::ValueError(e));
                },
            }
        } else {
            None
        };
        let out = match function.call_function(
            receiver.as_ref(),
            &params,
            &mut self.context,
            &self.cells,
        ) {
            Ok(o) => o,
            Err(e) => {
                if matches!(e, EnvironmentError::NotEnoughGas) {
                    return Err(VMError::OutOfGas);
                }
                return Err(VMError::EnvironmentError(e));
            },
        };
        match out {
            Some(cell) => {
                match self.stack.push_stack(ValuePointer::owned(cell)) {
                    Ok(()) => {},
                    Err(e) => {
                        return Err(e);
                    },
                }
            },
            None => {},
        }
        Ok(())
    }

    /// Writes a value into a field of an array or struct behind a
    /// pointer; only a shared container makes the write observable.
    fn sub_store(&mut self, container: ValuePointer, index: u8, value: ValuePointer) -> (r: Result<
        (),
        VMError,
    >)
        ensures
            final(self).spec_context() == old(self).spec_context(),
            final(self).spec_terminated() == old(self).spec_terminated(),
            r matches Err(e) ==> e != VMError::OutOfGas && !(e is Validation) && e
                != VMError::Terminated,
            final(self).spec_module() == old(self).spec_module(),
            final(self).spec_environment() == old(self).spec_environment(),
    {
        match container.0 {
            ValuePointerInner::Owned(_) => Ok(()),
            ValuePointerInner::Shared(i) => {
                if i < self.cells.len() && self.cells.is_live(i) {
                    let cell = self.cells.take(i);
                    match cell {
                        ValueCell::Array(mut elems) => {
                            if (index as usize) >= elems.len() {
                                self.cells.put(i, ValueCell::Array(elems));
                                return Err(VMError::ValueError(ValueError::OutOfBounds));
                            }
                            let mut displaced = value;
                            core::mem::swap(&mut elems[index as usize], &mut displaced);
                            crate::cells::discard(displaced);
                            self.cells.put(i, ValueCell::Array(elems));
                            Ok(())
                        },
                        ValueCell::Struct(mut fields, id) => {
                            if (index as usize) >= fields.len() {
                                self.cells.put(i, ValueCell::Struct(fields, id));
                                return Err(VMError::ValueError(ValueError::OutOfBounds));
                            }
                            let mut displaced = value;
                            core::mem::swap(&mut fields[index as usize], &mut displaced);
                            crate::cells::discard(displaced);
                            self.cells.put(i, ValueCell::Struct(fields, id));
                            Ok(())
                        },
                        other => {
                            self.cells.put(i, other);
                            Err(VMError::ValueError(ValueError::SubValue))
                        },
                    }
                } else {
                    Err(VMError::ValueError(ValueError::WeakValue))
                }
            },
        }
    }

    /// Looks a key up in a map and pushes the value it holds.
    fn map_get(&mut self, map_ptr: ValuePointer, key_ptr: ValuePointer) -> (r: Result<(), VMError>)
        ensures
            final(self).spec_context() == old(self).spec_context(),
            final(self).spec_terminated() == old(self).spec_terminated(),
            r matches Err(e) ==> e != VMError::OutOfGas && !(e is Validation) && e
                != VMError::Terminated,
            final(self).spec_module() == old(self).spec_module(),
            final(self).spec_environment() == old(self).spec_environment(),
    {
        let key_cell = match key_ptr.into_value(&self.cells) {
            Ok(c) => c,
            Err(e) => {
                return Err(VMError::ValueError(e));
            },
        };
        let key = match key_cell.to_plain() {
            Ok(k) => k,
            Err(e) => {
                return Err(VMError::ValueError(e));
            },
        };
        let cell = match map_ptr.handle(&self.cells) {
            Ok(c) => c,
            Err(e) => {
                return Err(VMError::ValueError(e));
            },
        };
        let entries = match cell {
            ValueCell::Mapping(entries) => entries,
            _ => {
                return Err(VMError::ValueError(ValueError::InvalidValueType));
            },
        };
        let mut i: usize = 0;
        let mut found: Option<ValuePointer> = None;
        while i < entries.len()
            invariant
                i <= entries@.len(),
            decreases entries@.len() - i,
        {
            if found.is_none() && crate::value_type::cells_equal(&entries[i].0, &key) {
                found = Some(entries[i].1.clone());
            }
            i += 1;
        }
        match found {
            Some(p) => {
                match self.stack.push_stack(p) {
                    Ok(()) => Ok(()),
                    Err(e) => Err(e),
                }
            },
            None => Err(VMError::ValueError(ValueError::OutOfBounds)),
        }
    }

    /// Writes a key and value into a map behind a shared pointer.
    fn map_set(&mut self, map_ptr: ValuePointer, key_ptr: ValuePointer, value: ValuePointer) -> (r:
        Result<(), VMError>)
        ensures
            final(self).spec_context() == old(self).spec_context(),
            final(self).spec_terminated() == old(self).spec_terminated(),
            r matches Err(e) ==> e != VMError::OutOfGas && !(e is Validation) && e
                != VMError::Terminated,
            final(self).spec_module() == old(self).spec_module(),
            final(self).spec_environment() == old(self).spec_environment(),
    {
        let key_cell = match key_ptr.into_value(&self.cells) {
            Ok(c) => c,
            Err(e) => {
                return Err(VMError::ValueError(e));
            },
        };
        let key = match key_cell.to_plain() {
            Ok(k) => k,
            Err(e) => {
                return Err(VMError::ValueError(e));
            },
        };
        if key.is_map() {
            return Err(VMError::EnvironmentError(EnvironmentError::InvalidKeyType));
        }
        match map_ptr.0 {
            ValuePointerInner::Owned(_) => Ok(()),
            ValuePointerInner::Shared(i) => {
                if i < self.cells.len() && self.cells.is_live(i) {
                    let cell = self.cells.take(i);
                    match cell {
                        ValueCell::Mapping(mut entries) => {
                            crate::constructor::rt_map_insert(&mut entries, key, value);
                            self.cells.put(i, ValueCell::Mapping(entries));
                            Ok(())
                        },
                        other => {
                            self.cells.put(i, other);
                            Err(VMError::ValueError(ValueError::InvalidValueType))
                        },
                    }
                } else {
                    Err(VMError::ValueError(ValueError::WeakValue))
                }
            },
        }
    }

    /// Casts the popped primitive to the type the tag names and pushes
    /// the result.
    fn cast_top(&mut self, p: ValuePointer, tag: u8) -> (r: Result<(), VMError>)
        ensures
            final(self).spec_context() == old(self).spec_context(),
            final(self).spec_terminated() == old(self).spec_terminated(),
            r matches Err(e) ==> e != VMError::OutOfGas && !(e is Validation) && e
                != VMError::Terminated,
            final(self).spec_module() == old(self).spec_module(),
            final(self).spec_environment() == old(self).spec_environment(),
    {
        let cell = match p.into_value(&self.cells) {
            Ok(c) => c,
            Err(e) => {
                return Err(VMError::ValueError(e));
            },
        };
        let v = match cell {
            ValueCell::Default(v) => v,
            _ => {
                return Err(VMError::InvalidCast);
            },
        };
        let out = match tag {
            0 => match v.cast_to_u8() {
                Ok(n) => Value::U8(n),
                Err(_) => {
                    return Err(VMError::InvalidCast);
                },
            },
            1 => match v.cast_to_u16() {
                Ok(n) => Value::U16(n),
                Err(_) => {
                    return Err(VMError::InvalidCast);
                },
            },
            2 => match v.cast_to_u32() {
                Ok(n) => Value::U32(n),
                Err(_) => {
                    return Err(VMError::InvalidCast);
                },
            },
            3 => match v.cast_to_u64() {
                Ok(n) => Value::U64(n),
                Err(_) => {
                    return Err(VMError::InvalidCast);
                },
            },
            4 => match v.cast_to_u128() {
                Ok(n) => Value::U128(n),
                Err(_) => {
                    return Err(VMError::InvalidCast);
                },
            },
            5 => match v.cast_to_u256() {
                Ok(n) => Value::U256(n),
                Err(_) => {
                    return Err(VMError::InvalidCast);
                },
            },
            6 => match v.cast_to_bool() {
                Ok(b) => Value::Boolean(b),
                Err(_) => {
                    return Err(VMError::InvalidCast);
                },
            },
            7 => match v.cast_to_string() {
                Ok(s) => Value::String(s),
                Err(_) => {
                    return Err(VMError::InvalidCast);
                },
            },
            _ => {
                return Err(VMError::InvalidCast);
            },
        };
        match self.stack.push_stack(ValuePointer::owned(ValueCell::Default(out))) {
            Ok(()) => Ok(()),
            Err(e) => Err(e),
        }
    }

    /// Runs an arithmetic, logical or comparison opcode on two popped
    /// primitives and returns the result value.
    fn binary_op(&self, op: OpCode, a: ValuePointer, b: ValuePointer) -> (r: Result<Value, VMError>)
        ensures
            r matches Err(e) ==> e != VMError::OutOfGas && !(e is Validation) && e
                != VMError::Terminated,
    {
        let ac = match a.into_value(&self.cells) {
            Ok(c) => c,
            Err(e) => {
                return Err(VMError::ValueError(e));
            },
        };
        let bc = match b.into_value(&self.cells) {
            Ok(c) => c,
            Err(e) => {
                return Err(VMError::ValueError(e));
            },
        };
        let av = match ac {
            ValueCell::Default(v) => v,
            _ => {
                return Err(VMError::ValueError(ValueError::InvalidValueType));
            },
        };
        let bv = match bc {
            ValueCell::Default(v) => v,
            _ => {
                return Err(VMError::ValueError(ValueError::InvalidValueType));
            },
        };
        crate::values::binary_value_op(op, av, bv)
    }
}

/// Retires a finished frame: its locals and the containers of its open
/// iterators are discarded without recursion.
fn retire_frame(frame: ChunkManager) {
    frame.retire();
}

/// Moves the program counter by a signed relative offset, measured from
/// the byte after the operand; a target before the start of the chunk
/// is a fault.
fn jump_relative(frame: &mut ChunkManager, offset: u16) -> (r: Result<(), VMError>)
    ensures
        final(frame).spec_bytes() == old(frame).spec_bytes(),
        final(frame).spec_locals() == old(frame).spec_locals(),
        final(frame).spec_iterators() == old(frame).spec_iterators(),
        match r {
            Ok(()) => final(frame).spec_pc() == old(frame).spec_pc() + ((offset as i16) as int),
            Err(e) => {
                &&& e == VMError::EndOfChunk
                &&& {
                    let target = old(frame).spec_pc() + ((offset as i16) as int);
                    target < 0 || target > usize::MAX
                }
            },
        },
{
    let off = offset as i16;
    if off >= 0 {
        let delta = off as usize;
        if frame.pc() > usize::MAX - delta {
            return Err(VMError::EndOfChunk);
        }
        let target = frame.pc() + delta;
        frame.set_pc(target);
    } else {
        let delta = (-(off as i32)) as usize;
        if frame.pc() < delta {
            return Err(VMError::EndOfChunk);
        }
        let target = frame.pc() - delta;
        frame.set_pc(target);
    }
    Ok(())
}

/// Turns a pointer into the path handed to native parameters.
fn pointer_to_path(p: ValuePointer) -> (r: Path)
    ensures
        match p@ {
            crate::cells::PtrV::Owned(b) => r matches Path::Owned(c) && c@ == *b,
            crate::cells::PtrV::Shared(i) => r matches Path::Wrapper(w) && w.spec_slot() == i,
        },
{
    match p.0 {
        ValuePointerInner::Owned(b) => Path::Owned(*b),
        ValuePointerInner::Shared(i) => Path::Wrapper(WeakValue::new(i)),
    }
}

/// A copy of a chunk's bytes for a fresh frame.
fn clone_bytes(bytes: &Vec<u8>) -> (r: Vec<u8>)
    ensures
        r@ == bytes@,
{
    let mut out: Vec<u8> = Vec::new();
    let mut i: usize = 0;
    while i < bytes.len()
        invariant
            i <= bytes@.len(),
            out@ =~= bytes@.take(i as int),
        decreases bytes@.len() - i,
    {
        out.push(bytes[i]);
        proof {
            assert(out@ =~= bytes@.take(i + 1));
        }
        i += 1;
    }
    proof {
        assert(bytes@.take(bytes@.len() as int) =~= bytes@);
    }
    out
}

/// Reads one operand byte.
fn read_u8(frame: &mut ChunkManager) -> (r: Result<u8, VMError>)
    ensures
        final(frame).spec_locals() == old(frame).spec_locals(),
        final(frame).spec_iterators() == old(frame).spec_iterators(),
        final(frame).spec_bytes() == old(frame).spec_bytes(),
        r matches Err(e) ==> e == VMError::EndOfChunk,
{
    frame.read_u8()
}

/// Reads one operand word.
fn read_u16(frame: &mut ChunkManager) -> (r: Result<u16, VMError>)
    ensures
        final(frame).spec_locals() == old(frame).spec_locals(),
        final(frame).spec_iterators() == old(frame).spec_iterators(),
        final(frame).spec_bytes() == old(frame).spec_bytes(),
        r matches Err(e) ==> e == VMError::EndOfChunk,
{
    frame.read_u16()
}

/// Pushes onto the operand stack.
fn push(stack: &mut Stack, p: ValuePointer) -> (r: Result<(), VMError>)
    ensures
        r matches Err(e) ==> e == VMError::StackOverflow,
{
    stack.push_stack(p)
}

/// Pops from the operand stack.
fn pop(stack: &mut Stack) -> (r: Result<ValuePointer, VMError>)
    ensures
        r matches Err(e) ==> e == VMError::StackUnderflow,
{
    stack.pop_stack()
}

} // verus!
