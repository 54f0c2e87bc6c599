//! The fetch-decode-execute loop.

use crate::buffer::{bytes_clone, bytes_seq};
use crate::execution_context::{ExecutionContext, MachineState};
use crate::instruction::{
    lemma_standard_table, standard_table, Instruction, InstructionError, Registry,
};
use crate::opcodes::{faulted, Effect, Errors, OpcodeExecutor, Opcodes};
use crate::word::Word;
use bytes::Bytes;
use vstd::prelude::*;

verus! {

/// A fault and the program counter of the instruction that raised it.
#[derive(Clone, Copy, Debug, PartialEq, Eq, Structural)]
pub struct Fault {
    pub error: Errors,
    pub pc: usize,
}

/// How a run ended.
#[derive(Debug)]
pub enum Outcome {
    /// The run halted on STOP or RETURN, with this return buffer.
    Halted { returndata: Bytes },
    /// The run faulted at the instruction that began at `pc`.
    Fault { error: Errors, pc: usize },
}

/// The state before any instruction of `code` ran. The input buffer holds
/// the code itself.
pub open spec fn initial_state(code: Seq<u8>) -> MachineState {
    MachineState {
        code,
        calldata: code,
        stack: Seq::<Word>::empty(),
        memory: Seq::<u8>::empty(),
        pc: 0,
        stopped: false,
        returndata: Seq::<u8>::empty(),
    }
}

/// The next instruction and the state in which it runs: STOP where the
/// program counter is at or past the end of the code, else what `table`
/// holds under the byte at the program counter, with that byte consumed.
pub open spec fn decoded(table: Seq<Option<Opcodes>>, s: MachineState) -> Result<
    (Opcodes, MachineState),
    Errors,
> {
    if s.pc < 0 || s.pc >= s.code.len() {
        Ok((Opcodes::STOP, s))
    } else {
        match table[s.code[s.pc] as int] {
            Some(op) => Ok((op, MachineState { pc: s.pc + 1, ..s })),
            None => Err(Errors::Instruction(InstructionError::InvalidOpcode(s.code[s.pc]))),
        }
    }
}

/// One step of the machine: decode, then execute. A byte that the table
/// does not know stays consumed, and nothing else changes.
pub open spec fn step_spec(table: Seq<Option<Opcodes>>, s: MachineState) -> Effect {
    match decoded(table, s) {
        Ok((op, consumed)) => op.effect(consumed),
        Err(e) => faulted(MachineState { pc: s.pc + 1, ..s }, e),
    }
}

/// A whole run from state `s`, with `steps` counting from 1: the final
/// state and the fault, if any. A halted machine runs no further. A step
/// that faults ends the run in the state that the step left. Each
/// instruction that completes is counted, and the run faults once the count
/// has reached `max_steps`, whatever that instruction did.
pub open spec fn run_spec(
    table: Seq<Option<Opcodes>>,
    s: MachineState,
    steps: nat,
    max_steps: nat,
) -> (MachineState, Option<Fault>)
    decreases max_steps - steps,
{
    if s.stopped {
        (s, None)
    } else {
        let stepped = step_spec(table, s);
        match stepped.fault {
            Some(error) => (stepped.state, Some(Fault { error, pc: s.pc as usize })),
            None => if steps >= max_steps {
                (
                    stepped.state,
                    Some(Fault { error: Errors::StepBudgetExceeded, pc: s.pc as usize }),
                )
            } else {
                run_spec(table, stepped.state, steps + 1, max_steps)
            },
        }
    }
}

/// The table entry that the next step runs: the stand-in STOP where the
/// program counter is at or past the end of the code, else the instruction
/// registered under the byte at the program counter.
pub open spec fn fetched(registry: &Registry, s: MachineState) -> Option<Instruction> {
    if s.pc < 0 || s.pc >= s.code.len() {
        Some(registry.stop)
    } else {
        registry.lookup(s.code[s.pc])
    }
}

/// Counts the instructions of a run against its budget. The count starts
/// at 1.
#[derive(Debug)]
pub struct StepCounter {
    pub steps: usize,
    pub max_steps: usize,
}

impl StepCounter {
    /// A counter for a run of at most `max_steps` steps.
    pub fn new(max_steps: usize) -> (counter: StepCounter)
        ensures
            counter.steps == 1,
            counter.max_steps == max_steps,
    {
        StepCounter { steps: 1, max_steps }
    }

    /// Counts one completed instruction. Once the count has reached the
    /// budget the run is over: the count stays and the fault is returned.
    pub fn count(&mut self) -> (r: Result<(), Errors>)
        ensures
            final(self).max_steps == old(self).max_steps,
            old(self).steps >= old(self).max_steps ==> r == Err::<(), Errors>(
                Errors::StepBudgetExceeded,
            ) && final(self).steps == old(self).steps,
            old(self).steps < old(self).max_steps ==> r == Ok::<(), Errors>(())
                && final(self).steps == old(self).steps + 1,
    {
        if self.steps >= self.max_steps {
            return Err(Errors::StepBudgetExceeded);
        }
        self.steps += 1;
        Ok(())
    }
}

/// Decodes the next instruction and executes it. Returns the table entry
/// that was run, for a caller that traces the run. On a fault the context is
/// as the faulting instruction left it.
pub fn step<'a>(registry: &'a Registry, context: &mut ExecutionContext) -> (r: Result<
    &'a Instruction,
    Errors,
>)
    requires
        registry.wf(),
        old(context).wf(),
    ensures
        final(context).wf(),
        final(context)@ == step_spec(registry.table(), old(context)@).state,
        match step_spec(registry.table(), old(context)@).fault {
            None => r is Ok && fetched(registry, old(context)@) == Some(*r->Ok_0),
            Some(e) => r == Err::<&Instruction, Errors>(e),
        },
{
    let ghost start = context@;
    match Instruction::decode_opcode(registry, context) {
        Ok(instruction) => {
            proof {
                if start.pc >= start.code.len() {
                    Opcodes::lemma_stop_effect(start);
                }
            }
            match instruction.executor.execute(context) {
                Ok(()) => Ok(instruction),
                Err(e) => Err(e),
            }
        },
        Err(e) => {
            Err(Errors::Instruction(e))
        },
    }
}

/// Runs `context` until it halts or faults. The step count starts at 1 and
/// the run faults with `StepBudgetExceeded` once it has reached `max_steps`.
pub fn run(registry: &Registry, context: &mut ExecutionContext, max_steps: usize) -> (r: Result<
    (),
    Fault,
>)
    requires
        registry.wf(),
        old(context).wf(),
    ensures
        final(context).wf(),
        final(context)@ == run_spec(registry.table(), old(context)@, 1, max_steps as nat).0,
        match run_spec(registry.table(), old(context)@, 1, max_steps as nat).1 {
            Some(fault) => r == Err::<(), Fault>(fault),
            None => r == Ok::<(), Fault>(()),
        },
{
    let mut counter: StepCounter = StepCounter::new(max_steps);
    while !context.stopped
        invariant
            registry.wf(),
            context.wf(),
            counter.steps >= 1,
            counter.max_steps == max_steps,
            run_spec(registry.table(), context@, counter.steps as nat, max_steps as nat)
                == run_spec(registry.table(), old(context)@, 1, max_steps as nat),
        decreases max_steps - counter.steps,
    {
        let pc: usize = context.pc;
        match step(registry, context) {
            Ok(_) => {},
            Err(error) => {
                return Err(Fault { error, pc });
            },
        }
        match counter.count() {
            Ok(()) => {},
            Err(error) => {
                return Err(Fault { error, pc });
            },
        }
    }
    Ok(())
}

/// The step budget of a run that names none.
pub const DEFAULT_MAX_STEPS: usize = 1000;

/// The step budget that `max_steps` asks for.
pub open spec fn budget(max_steps: Option<usize>) -> nat {
    match max_steps {
        Some(n) => n as nat,
        None => DEFAULT_MAX_STEPS as nat,
    }
}

/// Runs `code` from a fresh context against the standard dispatch table,
/// within `max_steps` or, where none is given, the default budget.
pub fn interpret(code: Bytes, max_steps: Option<usize>) -> (r: Outcome)
    ensures
        match run_spec(standard_table(), initial_state(bytes_seq(code)), 1, budget(max_steps)) {
            (s, None) => r matches Outcome::Halted { returndata } && bytes_seq(returndata)
                == s.returndata,
            (s, Some(fault)) => r matches Outcome::Fault { error, pc } && error == fault.error
                && pc == fault.pc,
        },
{
    let registry: Registry = Opcodes::register_instructions();
    proof {
        lemma_standard_table(&registry);
    }
    let mut context: ExecutionContext = ExecutionContext::new(code);
    let limit: usize = match max_steps {
        Some(n) => n,
        None => DEFAULT_MAX_STEPS,
    };
    match run(&registry, &mut context, limit) {
        Ok(()) => Outcome::Halted { returndata: bytes_clone(&context.returndata) },
        Err(fault) => Outcome::Fault { error: fault.error, pc: fault.pc },
    }
}

} // verus!
