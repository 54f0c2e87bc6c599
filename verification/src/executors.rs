//! Stand-alone executors for the six instructions that a minimal program
//! needs. Each one behaves as the instruction of the same name.

use crate::execution_context::ExecutionContext;
use crate::opcodes::{reported, Errors, OpcodeExecutor, Opcodes};
use vstd::prelude::*;

verus! {

/// PUSH1: puts the next byte of code on the stack.
#[derive(Debug)]
pub struct PUSH1;

/// STOP: halts the run.
#[derive(Debug)]
pub struct STOP;

/// ADD: the sum of the two top words, modulo 2^256.
#[derive(Debug)]
pub struct ADD;

/// MUL: the product of the two top words, modulo 2^256.
#[derive(Debug)]
pub struct MUL;

/// MSTORE8: stores the low byte of a word in memory.
#[derive(Debug)]
pub struct MSTORE8;

/// RETURN: halts the run with a range of memory as its result.
#[derive(Debug)]
pub struct RETURN;

/// An executor that stands for one instruction.
pub trait InstructionExecutor {
    /// The instruction that the executor runs.
    spec fn instruction(&self) -> Opcodes;

    /// Runs the instruction on `context`, whose program counter stands just
    /// behind the instruction's opcode byte. A fault ends the instruction
    /// where it stands: what it popped before stays popped.
    fn execute(&self, context: &mut ExecutionContext) -> (r: Result<(), Errors>)
        requires
            old(context).wf(),
        ensures
            final(context).wf(),
            final(context)@ == self.instruction().effect(old(context)@).state,
            r == reported(self.instruction().effect(old(context)@)),
    ;
}

impl InstructionExecutor for STOP {
    open spec fn instruction(&self) -> Opcodes {
        Opcodes::STOP
    }

    fn execute(&self, context: &mut ExecutionContext) -> (r: Result<(), Errors>) {
        Opcodes::STOP.execute(context)
    }
}

impl InstructionExecutor for PUSH1 {
    open spec fn instruction(&self) -> Opcodes {
        Opcodes::PUSH1
    }

    fn execute(&self, context: &mut ExecutionContext) -> (r: Result<(), Errors>) {
        Opcodes::PUSH1.execute(context)
    }
}

impl InstructionExecutor for ADD {
    open spec fn instruction(&self) -> Opcodes {
        Opcodes::ADD
    }

    fn execute(&self, context: &mut ExecutionContext) -> (r: Result<(), Errors>) {
        Opcodes::ADD.execute(context)
    }
}

impl InstructionExecutor for MUL {
    open spec fn instruction(&self) -> Opcodes {
        Opcodes::MUL
    }

    fn execute(&self, context: &mut ExecutionContext) -> (r: Result<(), Errors>) {
        Opcodes::MUL.execute(context)
    }
}

impl InstructionExecutor for MSTORE8 {
    open spec fn instruction(&self) -> Opcodes {
        Opcodes::MSTORE8
    }

    fn execute(&self, context: &mut ExecutionContext) -> (r: Result<(), Errors>) {
        Opcodes::MSTORE8.execute(context)
    }
}

impl InstructionExecutor for RETURN {
    open spec fn instruction(&self) -> Opcodes {
        Opcodes::RETURN
    }

    fn execute(&self, context: &mut ExecutionContext) -> (r: Result<(), Errors>) {
        Opcodes::RETURN.execute(context)
    }
}

} // verus!
