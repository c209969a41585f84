//! A stack machine that runs a chunk by fetch, decode and execute. The
//! machine decodes, moves values between the constant pool and its operand
//! stack and picks the operands of each operation; the arithmetic on values
//! is done by the caller, who hands the result back through `resume`.
//! `step` executes a single instruction, for tracing.
use vstd::prelude::*;
use crate::chunk::Chunk;
use crate::debug::width_at;
use crate::operation::{decode, op_byte, Operation};
use crate::simple_vec::SimpleVec;

verus! {

/// Default number of values the operand stack can hold.
pub const STACK_MAX: usize = 265;

/// What went wrong while running a chunk.
#[derive(Debug, Clone, Copy, PartialEq, Eq, Structural)]
pub enum RuntimeFault {
    /// An operation needed more values than the stack held.
    StackUnderflow,
    /// A push would have gone past the stack's capacity.
    StackOverflow,
    /// The byte at the instruction pointer encodes no operation.
    UnknownOpcode(u8),
    /// The instruction pointer, or an operand, lies past the end of the code.
    CodeOverrun,
    /// A constant operand names no entry of the pool.
    MissingConstant(u8),
}

/// The result of interpretation when it does not succeed.
#[derive(Debug, Clone, Copy, PartialEq, Eq, Structural)]
pub enum InterpretError {
    /// The source could not be turned into a chunk.
    CompileError,
    /// The chunk could not be run to its end.
    RuntimeError(RuntimeFault),
}

/// What one executed instruction asks of the caller.
#[derive(Debug, PartialEq)]
pub enum Step<V> {
    /// Nothing: the next instruction can run.
    Continue,
    /// Negate the value, then hand the result to `resume`.
    Negate(V),
    /// Apply the operation to `(first_popped, second_popped)` in that order,
    /// then hand the result to `resume`.
    Binary(Operation, V, V),
    /// The program is done and this is its result.
    Return(V),
}

/// A run-time fault as an interpretation result.
pub open spec fn fault<V>(f: RuntimeFault) -> Result<Step<V>, InterpretError> {
    Err(InterpretError::RuntimeError(f))
}

/// The operation reads as a binary arithmetic one.
pub open spec fn is_binary(op: Operation) -> bool {
    op == Operation::Add || op == Operation::Subtract || op == Operation::Multiply || op
        == Operation::Divide
}

/// One instruction executed at `ip` with operand stack `stack` (at most `max`
/// values): the result, then the stack and the instruction pointer after it.
/// On every error the stack and the instruction pointer stay as they were.
pub open spec fn step_spec<V>(stack: Seq<V>, ip: nat, max: nat, code: Seq<u8>, consts: Seq<V>) -> (
    Result<Step<V>, InterpretError>,
    Seq<V>,
    nat,
) {
    let n = stack.len();
    if ip >= code.len() {
        (fault(RuntimeFault::CodeOverrun), stack, ip)
    } else {
        match decode(code[ip as int]) {
            None => (fault(RuntimeFault::UnknownOpcode(code[ip as int])), stack, ip),
            Some(Operation::Return) => if n == 0 {
                (fault(RuntimeFault::StackUnderflow), stack, ip)
            } else {
                (Ok(Step::Return(stack[n - 1])), stack.drop_last(), ip)
            },
            Some(Operation::Constant) => if ip + 1 >= code.len() {
                (fault(RuntimeFault::CodeOverrun), stack, ip)
            } else if code[ip + 1int] >= consts.len() {
                (fault(RuntimeFault::MissingConstant(code[ip + 1int])), stack, ip)
            } else if n >= max {
                (fault(RuntimeFault::StackOverflow), stack, ip)
            } else {
                (Ok(Step::Continue), stack.push(consts[code[ip + 1int] as int]), ip + 2)
            },
            Some(Operation::Negate) => if n == 0 {
                (fault(RuntimeFault::StackUnderflow), stack, ip)
            } else {
                (Ok(Step::Negate(stack[n - 1])), stack.drop_last(), ip + 1)
            },
            Some(op) => if n < 2 {
                (fault(RuntimeFault::StackUnderflow), stack, ip)
            } else {
                (Ok(Step::Binary(op, stack[n - 1], stack[n - 2])), stack.subrange(0, n - 2), ip + 1)
            },
        }
    }
}

/// Instructions executed from `ip` until one faults or needs the caller:
/// the result of that last one, then the stack and instruction pointer after it.
pub open spec fn run_spec<V>(stack: Seq<V>, ip: nat, max: nat, code: Seq<u8>, consts: Seq<V>) -> (
    Result<Step<V>, InterpretError>,
    Seq<V>,
    nat,
)
    decreases code.len() - ip,
{
    let s = step_spec(stack, ip, max, code, consts);
    if s.0 == Ok::<Step<V>, InterpretError>(Step::Continue) && ip < s.2 <= code.len() {
        run_spec(s.1, s.2, max, code, consts)
    } else {
        s
    }
}

/// The machine: an operand stack of bounded size and an instruction pointer.
pub struct VM<V> {
    stack: SimpleVec<V>,
    stack_max: usize,
    ip: usize,
}

impl<V: Copy> VM<V> {
    /// The values on the operand stack, bottom first.
    pub closed spec fn values(&self) -> Seq<V> {
        self.stack@
    }

    /// The instruction pointer.
    pub closed spec fn ip_at(&self) -> nat {
        self.ip as nat
    }

    /// The most values the operand stack can hold.
    pub closed spec fn limit(&self) -> nat {
        self.stack_max as nat
    }

    /// The stack is sound and within its limit.
    pub closed spec fn wf(&self) -> bool {
        &&& self.stack.wf()
        &&& self.stack@.len() <= self.stack_max
        &&& self.stack_max < usize::MAX / 2
    }

    /// A machine with an empty stack of `STACK_MAX` values, at instruction 0.
    pub fn new() -> (r: Self)
        requires
            vstd::layout::size_of::<V>() != 0,
        ensures
            r.wf(),
            r.values() == Seq::<V>::empty(),
            r.ip_at() == 0,
            r.limit() == STACK_MAX,
    {
        VM { stack: SimpleVec::with_initial_capacity(STACK_MAX), stack_max: STACK_MAX, ip: 0 }
    }

    /// A machine whose stack holds at most `stack_max` values.
    pub fn with_stack_max(stack_max: usize) -> (r: Self)
        requires
            vstd::layout::size_of::<V>() != 0,
            stack_max < usize::MAX / 2,
        ensures
            r.wf(),
            r.values() == Seq::<V>::empty(),
            r.ip_at() == 0,
            r.limit() == stack_max,
    {
        VM { stack: SimpleVec::with_initial_capacity(stack_max), stack_max, ip: 0 }
    }

    /// The operand stack, for inspection.
    pub fn stack(&self) -> (r: &SimpleVec<V>)
        ensures
            r@ == self.values(),
    {
        &self.stack
    }

    /// The instruction pointer.
    pub fn ip(&self) -> (r: usize)
        ensures
            r == self.ip_at(),
    {
        self.ip
    }

    /// Pushes `v`, or reports an overflow and leaves the stack alone.
    pub fn push(&mut self, v: V) -> (r: Result<(), InterpretError>)
        requires
            old(self).wf(),
        ensures
            final(self).wf(),
            final(self).ip_at() == old(self).ip_at(),
            final(self).limit() == old(self).limit(),
            old(self).values().len() < old(self).limit() ==> r is Ok && final(self).values()
                == old(self).values().push(v),
            old(self).values().len() >= old(self).limit() ==> r == Err::<(), InterpretError>(
                InterpretError::RuntimeError(RuntimeFault::StackOverflow),
            ) && final(self).values() == old(self).values(),
    {
        if self.stack.count() >= self.stack_max {
            return Err(InterpretError::RuntimeError(RuntimeFault::StackOverflow));
        }
        self.stack.push(v);
        Ok(())
    }

    /// Pops the top value, or reports an underflow and leaves the stack alone.
    fn pop(&mut self) -> (r: Result<V, InterpretError>)
        requires
            old(self).wf(),
        ensures
            final(self).wf(),
            final(self).ip_at() == old(self).ip_at(),
            final(self).limit() == old(self).limit(),
            old(self).values().len() > 0 ==> r == Ok::<V, InterpretError>(
                old(self).values().last(),
            ) && final(self).values() == old(self).values().drop_last(),
            old(self).values().len() == 0 ==> r == Err::<V, InterpretError>(
                InterpretError::RuntimeError(RuntimeFault::StackUnderflow),
            ) && final(self).values() == old(self).values(),
    {
        match self.stack.pop() {
            Some(v) => Ok(v),
            None => Err(InterpretError::RuntimeError(RuntimeFault::StackUnderflow)),
        }
    }

    /// Runs `chunk` from its first instruction until an instruction faults
    /// or needs the caller.
    pub fn interpret(&mut self, chunk: &Chunk<V>) -> (r: Result<Step<V>, InterpretError>)
        requires
            old(self).wf(),
            chunk.wf(),
        ensures
            final(self).wf(),
            final(self).limit() == old(self).limit(),
            (r, final(self).values(), final(self).ip_at()) == run_spec(
                old(self).values(),
                0,
                old(self).limit(),
                chunk.code(),
                chunk.constants(),
            ),
    {
        self.run(chunk, 0)
    }

    /// Runs `chunk` from instruction `ip` until an instruction faults or
    /// needs the caller.
    pub fn run(&mut self, chunk: &Chunk<V>, ip: usize) -> (r: Result<Step<V>, InterpretError>)
        requires
            old(self).wf(),
            chunk.wf(),
        ensures
            final(self).wf(),
            final(self).limit() == old(self).limit(),
            (r, final(self).values(), final(self).ip_at()) == run_spec(
                old(self).values(),
                ip as nat,
                old(self).limit(),
                chunk.code(),
                chunk.constants(),
            ),
    {
        self.ip = ip;
        self.proceed(chunk)
    }

    /// Pushes the result of the operation that the machine handed out, then
    /// runs on until an instruction faults or needs the caller.
    pub fn resume(&mut self, chunk: &Chunk<V>, result: V) -> (r: Result<Step<V>, InterpretError>)
        requires
            old(self).wf(),
            chunk.wf(),
        ensures
            final(self).wf(),
            final(self).limit() == old(self).limit(),
            old(self).values().len() >= old(self).limit() ==> r == fault::<V>(
                RuntimeFault::StackOverflow,
            ) && final(self).values() == old(self).values() && final(self).ip_at() == old(
                self,
            ).ip_at(),
            old(self).values().len() < old(self).limit() ==> (
            r,
            final(self).values(),
            final(self).ip_at(),
            ) == run_spec(
                old(self).values().push(result),
                old(self).ip_at(),
                old(self).limit(),
                chunk.code(),
                chunk.constants(),
            ),
    {
        match self.push(result) {
            Ok(()) => self.proceed(chunk),
            Err(e) => Err(e),
        }
    }

    /// Steps from the current instruction until one faults or needs the caller.
    fn proceed(&mut self, chunk: &Chunk<V>) -> (r: Result<Step<V>, InterpretError>)
        requires
            old(self).wf(),
            chunk.wf(),
        ensures
            final(self).wf(),
            final(self).limit() == old(self).limit(),
            (r, final(self).values(), final(self).ip_at()) == run_spec(
                old(self).values(),
                old(self).ip_at(),
                old(self).limit(),
                chunk.code(),
                chunk.constants(),
            ),
    {
        let ghost goal = run_spec(
            self.values(),
            self.ip_at(),
            self.limit(),
            chunk.code(),
            chunk.constants(),
        );
        loop
            invariant
                self.wf(),
                chunk.wf(),
                self.limit() == old(self).limit(),
                run_spec(self.values(), self.ip_at(), self.limit(), chunk.code(), chunk.constants())
                    == goal,
                goal == run_spec(
                    old(self).values(),
                    old(self).ip_at(),
                    old(self).limit(),
                    chunk.code(),
                    chunk.constants(),
                ),
            decreases if self.ip_at() <= chunk.code().len() {
                chunk.code().len() - self.ip_at()
            } else {
                0
            },
        {
            let ghost before = (self.values(), self.ip_at());
            let r = self.step(chunk);
            match r {
                Ok(Step::Continue) => {
                    assert(self.ip_at() == before.1 + 2);
                },
                _ => {
                    assert(run_spec(before.0, before.1, self.limit(), chunk.code(), chunk.constants())
                        == step_spec(before.0, before.1, self.limit(), chunk.code(), chunk.constants()));
                    return r;
                },
            }
        }
    }

    /// Executes the instruction at the instruction pointer.
    pub fn step(&mut self, chunk: &Chunk<V>) -> (r: Result<Step<V>, InterpretError>)
        requires
            old(self).wf(),
            chunk.wf(),
        ensures
            final(self).wf(),
            final(self).limit() == old(self).limit(),
            (r, final(self).values(), final(self).ip_at()) == step_spec(
                old(self).values(),
                old(self).ip_at(),
                old(self).limit(),
                chunk.code(),
                chunk.constants(),
            ),
    {
        proof {
            chunk.lemma_tables_in_step();
        }
        let ip = self.ip;
        if ip >= chunk.code_count() {
            return Err(InterpretError::RuntimeError(RuntimeFault::CodeOverrun));
        }
        let byte = chunk.instruction(ip);
        let op = match Operation::try_from_byte(byte) {
            Ok(op) => op,
            Err(b) => {
                return Err(InterpretError::RuntimeError(RuntimeFault::UnknownOpcode(b)));
            },
        };
        let n = self.stack.count();
        match op {
            Operation::Return => {
                let v = self.pop()?;
                Ok(Step::Return(v))
            },
            Operation::Constant => {
                if ip + 1 >= chunk.code_count() {
                    return Err(InterpretError::RuntimeError(RuntimeFault::CodeOverrun));
                }
                let index = chunk.instruction(ip + 1);
                if index as usize >= chunk.constant_count() {
                    return Err(InterpretError::RuntimeError(RuntimeFault::MissingConstant(index)));
                }
                if n >= self.stack_max {
                    return Err(InterpretError::RuntimeError(RuntimeFault::StackOverflow));
                }
                let value = chunk.constant(index as usize);
                self.stack.push(value);
                self.ip = ip + 2;
                Ok(Step::Continue)
            },
            Operation::Negate => {
                let v = self.pop()?;
                self.ip = ip + 1;
                Ok(Step::Negate(v))
            },
            _ => {
                if n < 2 {
                    return Err(InterpretError::RuntimeError(RuntimeFault::StackUnderflow));
                }
                let first = self.pop()?;
                let second = self.pop()?;
                self.ip = ip + 1;
                proof {
                    assert(old(self).values().drop_last().drop_last() =~= old(self).values().subrange(0, n - 2));
                }
                Ok(Step::Binary(op, first, second))
            },
        }
    }
}

/// A faulting instruction leaves the operand stack and the instruction
/// pointer exactly as they were.
pub proof fn law_fault_keeps_state<V>(
    stack: Seq<V>,
    ip: nat,
    max: nat,
    code: Seq<u8>,
    consts: Seq<V>,
)
    ensures
        step_spec(stack, ip, max, code, consts).0 is Err ==> step_spec(
            stack,
            ip,
            max,
            code,
            consts,
        ).1 == stack && step_spec(stack, ip, max, code, consts).2 == ip,
{
}

/// Running constant `i`, constant `j`, then a binary operation hands the
/// operation the value loaded last first: the operands come out as
/// `(consts[j], consts[i])`, and the stack is back where it started.
pub proof fn law_operand_order<V>(
    stack: Seq<V>,
    max: nat,
    consts: Seq<V>,
    i: u8,
    j: u8,
    op: Operation,
)
    requires
        is_binary(op),
        i < consts.len(),
        j < consts.len(),
        stack.len() + 2 <= max,
    ensures
        ({
            let code = seq![op_byte(Operation::Constant), i, op_byte(Operation::Constant), j, op_byte(op)];
            run_spec(stack, 0, max, code, consts) == (
                Ok::<Step<V>, InterpretError>(Step::Binary(op, consts[j as int], consts[i as int])),
                stack,
                5nat,
            )
        }),
{
    let code = seq![op_byte(Operation::Constant), i, op_byte(Operation::Constant), j, op_byte(op)];
    let s1 = step_spec(stack, 0, max, code, consts);
    assert(s1.1 == stack.push(consts[i as int]));
    let s2 = step_spec(s1.1, s1.2, max, code, consts);
    assert(s2.1 == stack.push(consts[i as int]).push(consts[j as int]));
    let s3 = step_spec(s2.1, s2.2, max, code, consts);
    assert(s3.1 =~= stack);
    assert(run_spec(s2.1, s2.2, max, code, consts) == s3);
    assert(run_spec(s1.1, s1.2, max, code, consts) == s3);
}

/// Every instruction the machine executes without fault and without
/// returning moves the instruction pointer by the width the disassembler
/// gives that instruction.
pub proof fn law_step_width_matches_listing<V>(
    stack: Seq<V>,
    ip: nat,
    max: nat,
    code: Seq<u8>,
    consts: Seq<V>,
)
    requires
        step_spec(stack, ip, max, code, consts).0 is Ok,
        !(step_spec(stack, ip, max, code, consts).0->Ok_0 is Return),
    ensures
        step_spec(stack, ip, max, code, consts).2 == ip + width_at(code, ip),
{
}

} // verus!
