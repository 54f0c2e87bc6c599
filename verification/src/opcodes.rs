//! The instruction set: what each opcode is called, which byte encodes it,
//! and what it does to the state of a run.

use crate::execution_context::{
    is_jump_destination, ExecutionContext, MachineState, MAX_STACK_DEPTH,
};
use crate::instruction::{Instruction, InstructionError, Registry};
use crate::memory::{expanded, last_covered, memory_limit, Memory};
use crate::stack::{from_top, swapped, StackError};
use crate::word::{add_mod, be_value, mul_mod, padded, sub_mod, Word};
use vstd::prelude::*;

verus! {

/// Every instruction of the machine.
#[derive(Clone, Copy, Debug, PartialEq, Eq, Structural)]
pub enum Opcodes {
    STOP,
    ADD,
    MUL,
    SUB,
    MSTORE8,
    RETURN,
    PC,
    MSIZE,
    PUSH1,
    PUSH2,
    PUSH3,
    PUSH4,
    PUSH5,
    PUSH6,
    PUSH7,
    PUSH8,
    PUSH9,
    PUSH10,
    PUSH11,
    PUSH12,
    PUSH13,
    PUSH14,
    PUSH15,
    PUSH16,
    PUSH17,
    PUSH18,
    PUSH19,
    PUSH20,
    PUSH21,
    PUSH22,
    PUSH23,
    PUSH24,
    PUSH25,
    PUSH26,
    PUSH27,
    PUSH28,
    PUSH29,
    PUSH30,
    PUSH31,
    PUSH32,
    DUP1,
    DUP2,
    DUP3,
    DUP4,
    DUP5,
    DUP6,
    DUP7,
    DUP8,
    DUP9,
    DUP10,
    DUP11,
    DUP12,
    DUP13,
    DUP14,
    DUP15,
    DUP16,
    SWAP1,
    SWAP2,
    SWAP3,
    SWAP4,
    SWAP5,
    SWAP6,
    SWAP7,
    SWAP8,
    SWAP9,
    SWAP10,
    SWAP11,
    SWAP12,
    SWAP13,
    SWAP14,
    SWAP15,
    SWAP16,
    JUMP,
    JUMPI,
    JUMPDEST,
}

/// Why a run faulted.
#[derive(Clone, Copy, Debug, PartialEq, Eq, Structural)]
pub enum Errors {
    /// A stack operation was refused.
    Stack(StackError),
    /// An instruction reached for memory that cannot be addressed: the
    /// offset and the length of the access.
    InvalidMemoryAccess(Word, Word),
    /// The next instruction could not be decoded.
    Instruction(InstructionError),
    /// A jump aimed at the given target, which is no jump destination.
    InvalidJumpDestination(Word),
    /// The run took more steps than it was given.
    StepBudgetExceeded,
}

/// What an instruction leaves behind: the state after it and, where it
/// faulted, the fault. A handler works in steps, and a fault ends it where it
/// stands: what the earlier steps did stays done.
pub struct Effect {
    pub state: MachineState,
    pub fault: Option<Errors>,
}

/// An instruction that ran to its end and left `state`.
pub open spec fn done(state: MachineState) -> Effect {
    Effect { state, fault: None }
}

/// An instruction that left `state` and faulted with `error`.
pub open spec fn faulted(state: MachineState, error: Errors) -> Effect {
    Effect { state, fault: Some(error) }
}

/// What the caller of an instruction is told: nothing, or the fault.
pub open spec fn reported(effect: Effect) -> Result<(), Errors> {
    match effect.fault {
        None => Ok(()),
        Some(error) => Err(error),
    }
}

/// `s` with the top word off the stack.
pub open spec fn pop_one(s: MachineState) -> MachineState {
    MachineState { stack: s.stack.drop_last(), ..s }
}

/// Two pops in a row: both succeed on a stack of two words or more; on a
/// stack of one word the first succeeds and the second underflows; on an
/// empty stack the first underflows.
pub open spec fn take_two(s: MachineState) -> Effect {
    if s.stack.len() == 0 {
        faulted(s, Errors::Stack(StackError::StackUnderflow))
    } else if s.stack.len() == 1 {
        faulted(pop_one(s), Errors::Stack(StackError::StackUnderflow))
    } else {
        done(pop_one(pop_one(s)))
    }
}

/// An instruction that pops two words and pushes `result`.
pub open spec fn binary_effect(s: MachineState, result: nat) -> Effect {
    let taken = take_two(s);
    if taken.fault is Some {
        taken
    } else {
        done(
            MachineState {
                stack: taken.state.stack.push(Word::from_nat(result)),
                ..taken.state
            },
        )
    }
}

/// An instruction that pushes `word`: on a full stack it overflows and
/// changes nothing.
pub open spec fn push_effect(s: MachineState, word: Word) -> Effect {
    if s.stack.len() >= MAX_STACK_DEPTH {
        faulted(s, Errors::Stack(StackError::StackOverflow))
    } else {
        done(MachineState { stack: s.stack.push(word), ..s })
    }
}

/// A PUSH with `width` immediate bytes: the program counter moves past the
/// bytes, then their big-endian number is pushed. Where the push overflows
/// the program counter has moved all the same. Where the program counter
/// cannot move that far nothing changes.
pub open spec fn immediate_effect(s: MachineState, width: int) -> Effect {
    if s.pc + width > usize::MAX {
        faulted(s, Errors::Instruction(InstructionError::InvalidCodeOffset { pc: s.pc as usize }))
    } else {
        push_effect(
            MachineState { pc: s.pc + width, ..s },
            Word::from_nat(be_value(padded(s.code, s.pc, width as nat))),
        )
    }
}

/// PC: the offset of the instruction's own opcode byte, one before the
/// program counter, is pushed. At program counter 0 no opcode byte has been
/// consumed, and there is no such offset.
pub open spec fn pc_effect(s: MachineState) -> Effect {
    if s.pc < 1 {
        faulted(s, Errors::Instruction(InstructionError::InvalidCodeOffset { pc: 0 }))
    } else {
        push_effect(s, Word::from_nat((s.pc - 1) as nat))
    }
}

/// A DUP that copies the word `depth` positions below the top. It pops
/// nothing, so a fault changes nothing.
pub open spec fn dup_effect(s: MachineState, depth: int) -> Effect {
    if s.stack.len() <= depth {
        faulted(s, Errors::Stack(StackError::StackUnderflow))
    } else {
        push_effect(s, from_top(s.stack, depth))
    }
}

/// A SWAP that exchanges the top with the word `depth` positions below it.
/// It pops nothing, so a fault changes nothing.
pub open spec fn swap_effect(s: MachineState, depth: int) -> Effect {
    if s.stack.len() <= depth {
        faulted(s, Errors::Stack(StackError::StackUnderflow))
    } else {
        done(MachineState { stack: swapped(s.stack, depth), ..s })
    }
}

/// MSTORE8: pops the offset, pops the value, then stores the value's lowest
/// byte. An offset that cannot be addressed faults after both pops.
pub open spec fn mstore8_effect(s: MachineState) -> Effect {
    let offset = from_top(s.stack, 0);
    let value = from_top(s.stack, 1);
    let taken = take_two(s);
    if taken.fault is Some {
        taken
    } else if offset@ >= memory_limit() {
        faulted(taken.state, Errors::InvalidMemoryAccess(offset, Word::from_nat(1)))
    } else {
        done(
            MachineState {
                memory: expanded(s.memory, offset@ as int).update(
                    offset@ as int,
                    (value@ % 256) as u8,
                ),
                ..taken.state
            },
        )
    }
}

/// RETURN: pops the offset, pops the length, then halts with that range of
/// memory as the return buffer. A range that cannot be addressed faults
/// after both pops, and the run is not halted.
pub open spec fn return_effect(s: MachineState) -> Effect {
    let offset = from_top(s.stack, 0);
    let length = from_top(s.stack, 1);
    let last = last_covered(offset@ as int, length@ as int);
    let taken = take_two(s);
    if taken.fault is Some {
        taken
    } else if last >= memory_limit() {
        faulted(taken.state, Errors::InvalidMemoryAccess(offset, length))
    } else {
        done(
            MachineState {
                memory: expanded(s.memory, last),
                returndata: expanded(s.memory, last).subrange(
                    offset@ as int,
                    (offset@ + length@) as int,
                ),
                stopped: true,
                ..taken.state
            },
        )
    }
}

/// A jump to `target`, already popped: the program counter moves there if
/// it is a jump destination; else the jump faults and the program counter
/// stays.
pub open spec fn jump_to(s: MachineState, target: Word) -> Effect {
    if is_jump_destination(s.code, target@) {
        done(MachineState { pc: target@ as int, ..s })
    } else {
        faulted(s, Errors::InvalidJumpDestination(target))
    }
}

/// JUMP: pops the target, then jumps. An invalid target faults after the
/// pop.
pub open spec fn jump_effect(s: MachineState) -> Effect {
    if s.stack.len() == 0 {
        faulted(s, Errors::Stack(StackError::StackUnderflow))
    } else {
        jump_to(pop_one(s), from_top(s.stack, 0))
    }
}

/// JUMPI: pops the target, pops the condition, then jumps unless the
/// condition is 0. An invalid target faults after both pops, and only where
/// the jump is taken.
pub open spec fn jumpi_effect(s: MachineState) -> Effect {
    let taken = take_two(s);
    if taken.fault is Some {
        taken
    } else if from_top(s.stack, 1)@ != 0 {
        jump_to(taken.state, from_top(s.stack, 0))
    } else {
        taken
    }
}

impl Opcodes {
    /// The byte that encodes the instruction.
    pub open spec fn byte(self) -> u8 {
        match self {
            Opcodes::STOP => 0x00,
            Opcodes::ADD => 0x01,
            Opcodes::MUL => 0x02,
            Opcodes::SUB => 0x03,
            Opcodes::MSTORE8 => 0x53,
            Opcodes::RETURN => 0xF3,
            Opcodes::PC => 0x58,
            Opcodes::MSIZE => 0x59,
            Opcodes::PUSH1 => 0x60,
            Opcodes::PUSH2 => 0x61,
            Opcodes::PUSH3 => 0x62,
            Opcodes::PUSH4 => 0x63,
            Opcodes::PUSH5 => 0x64,
            Opcodes::PUSH6 => 0x65,
            Opcodes::PUSH7 => 0x66,
            Opcodes::PUSH8 => 0x67,
            Opcodes::PUSH9 => 0x68,
            Opcodes::PUSH10 => 0x69,
            Opcodes::PUSH11 => 0x6A,
            Opcodes::PUSH12 => 0x6B,
            Opcodes::PUSH13 => 0x6C,
            Opcodes::PUSH14 => 0x6D,
            Opcodes::PUSH15 => 0x6E,
            Opcodes::PUSH16 => 0x6F,
            Opcodes::PUSH17 => 0x70,
            Opcodes::PUSH18 => 0x71,
            Opcodes::PUSH19 => 0x72,
            Opcodes::PUSH20 => 0x73,
            Opcodes::PUSH21 => 0x74,
            Opcodes::PUSH22 => 0x75,
            Opcodes::PUSH23 => 0x76,
            Opcodes::PUSH24 => 0x77,
            Opcodes::PUSH25 => 0x78,
            Opcodes::PUSH26 => 0x79,
            Opcodes::PUSH27 => 0x7A,
            Opcodes::PUSH28 => 0x7B,
            Opcodes::PUSH29 => 0x7C,
            Opcodes::PUSH30 => 0x7D,
            Opcodes::PUSH31 => 0x7E,
            Opcodes::PUSH32 => 0x7F,
            Opcodes::DUP1 => 0x80,
            Opcodes::DUP2 => 0x81,
            Opcodes::DUP3 => 0x82,
            Opcodes::DUP4 => 0x83,
            Opcodes::DUP5 => 0x84,
            Opcodes::DUP6 => 0x85,
            Opcodes::DUP7 => 0x86,
            Opcodes::DUP8 => 0x87,
            Opcodes::DUP9 => 0x88,
            Opcodes::DUP10 => 0x89,
            Opcodes::DUP11 => 0x8A,
            Opcodes::DUP12 => 0x8B,
            Opcodes::DUP13 => 0x8C,
            Opcodes::DUP14 => 0x8D,
            Opcodes::DUP15 => 0x8E,
            Opcodes::DUP16 => 0x8F,
            Opcodes::SWAP1 => 0x90,
            Opcodes::SWAP2 => 0x91,
            Opcodes::SWAP3 => 0x92,
            Opcodes::SWAP4 => 0x93,
            Opcodes::SWAP5 => 0x94,
            Opcodes::SWAP6 => 0x95,
            Opcodes::SWAP7 => 0x96,
            Opcodes::SWAP8 => 0x97,
            Opcodes::SWAP9 => 0x98,
            Opcodes::SWAP10 => 0x99,
            Opcodes::SWAP11 => 0x9A,
            Opcodes::SWAP12 => 0x9B,
            Opcodes::SWAP13 => 0x9C,
            Opcodes::SWAP14 => 0x9D,
            Opcodes::SWAP15 => 0x9E,
            Opcodes::SWAP16 => 0x9F,
            Opcodes::JUMP => 0x56,
            Opcodes::JUMPI => 0x57,
            Opcodes::JUMPDEST => 0x5B,
        }
    }

    /// The instruction that `byte` encodes, if any.
    pub open spec fn of_byte(byte: u8) -> Option<Opcodes> {
        match byte {
            0x00 => Some(Opcodes::STOP),
            0x01 => Some(Opcodes::ADD),
            0x02 => Some(Opcodes::MUL),
            0x03 => Some(Opcodes::SUB),
            0x53 => Some(Opcodes::MSTORE8),
            0xF3 => Some(Opcodes::RETURN),
            0x58 => Some(Opcodes::PC),
            0x59 => Some(Opcodes::MSIZE),
            0x60 => Some(Opcodes::PUSH1),
            0x61 => Some(Opcodes::PUSH2),
            0x62 => Some(Opcodes::PUSH3),
            0x63 => Some(Opcodes::PUSH4),
            0x64 => Some(Opcodes::PUSH5),
            0x65 => Some(Opcodes::PUSH6),
            0x66 => Some(Opcodes::PUSH7),
            0x67 => Some(Opcodes::PUSH8),
            0x68 => Some(Opcodes::PUSH9),
            0x69 => Some(Opcodes::PUSH10),
            0x6A => Some(Opcodes::PUSH11),
            0x6B => Some(Opcodes::PUSH12),
            0x6C => Some(Opcodes::PUSH13),
            0x6D => Some(Opcodes::PUSH14),
            0x6E => Some(Opcodes::PUSH15),
            0x6F => Some(Opcodes::PUSH16),
            0x70 => Some(Opcodes::PUSH17),
            0x71 => Some(Opcodes::PUSH18),
            0x72 => Some(Opcodes::PUSH19),
            0x73 => Some(Opcodes::PUSH20),
            0x74 => Some(Opcodes::PUSH21),
            0x75 => Some(Opcodes::PUSH22),
            0x76 => Some(Opcodes::PUSH23),
            0x77 => Some(Opcodes::PUSH24),
            0x78 => Some(Opcodes::PUSH25),
            0x79 => Some(Opcodes::PUSH26),
            0x7A => Some(Opcodes::PUSH27),
            0x7B => Some(Opcodes::PUSH28),
            0x7C => Some(Opcodes::PUSH29),
            0x7D => Some(Opcodes::PUSH30),
            0x7E => Some(Opcodes::PUSH31),
            0x7F => Some(Opcodes::PUSH32),
            0x80 => Some(Opcodes::DUP1),
            0x81 => Some(Opcodes::DUP2),
            0x82 => Some(Opcodes::DUP3),
            0x83 => Some(Opcodes::DUP4),
            0x84 => Some(Opcodes::DUP5),
            0x85 => Some(Opcodes::DUP6),
            0x86 => Some(Opcodes::DUP7),
            0x87 => Some(Opcodes::DUP8),
            0x88 => Some(Opcodes::DUP9),
            0x89 => Some(Opcodes::DUP10),
            0x8A => Some(Opcodes::DUP11),
            0x8B => Some(Opcodes::DUP12),
            0x8C => Some(Opcodes::DUP13),
            0x8D => Some(Opcodes::DUP14),
            0x8E => Some(Opcodes::DUP15),
            0x8F => Some(Opcodes::DUP16),
            0x90 => Some(Opcodes::SWAP1),
            0x91 => Some(Opcodes::SWAP2),
            0x92 => Some(Opcodes::SWAP3),
            0x93 => Some(Opcodes::SWAP4),
            0x94 => Some(Opcodes::SWAP5),
            0x95 => Some(Opcodes::SWAP6),
            0x96 => Some(Opcodes::SWAP7),
            0x97 => Some(Opcodes::SWAP8),
            0x98 => Some(Opcodes::SWAP9),
            0x99 => Some(Opcodes::SWAP10),
            0x9A => Some(Opcodes::SWAP11),
            0x9B => Some(Opcodes::SWAP12),
            0x9C => Some(Opcodes::SWAP13),
            0x9D => Some(Opcodes::SWAP14),
            0x9E => Some(Opcodes::SWAP15),
            0x9F => Some(Opcodes::SWAP16),
            0x56 => Some(Opcodes::JUMP),
            0x57 => Some(Opcodes::JUMPI),
            0x5B => Some(Opcodes::JUMPDEST),
            _ => None,
        }
    }

    /// The mnemonic of the instruction.
    pub open spec fn name_spec(self) -> Seq<char> {
        match self {
            Opcodes::STOP => "STOP"@,
            Opcodes::ADD => "ADD"@,
            Opcodes::MUL => "MUL"@,
            Opcodes::SUB => "SUB"@,
            Opcodes::MSTORE8 => "MSTORE8"@,
            Opcodes::RETURN => "RETURN"@,
            Opcodes::PC => "PC"@,
            Opcodes::MSIZE => "MSIZE"@,
            Opcodes::PUSH1 => "PUSH1"@,
            Opcodes::PUSH2 => "PUSH2"@,
            Opcodes::PUSH3 => "PUSH3"@,
            Opcodes::PUSH4 => "PUSH4"@,
            Opcodes::PUSH5 => "PUSH5"@,
            Opcodes::PUSH6 => "PUSH6"@,
            Opcodes::PUSH7 => "PUSH7"@,
            Opcodes::PUSH8 => "PUSH8"@,
            Opcodes::PUSH9 => "PUSH9"@,
            Opcodes::PUSH10 => "PUSH10"@,
            Opcodes::PUSH11 => "PUSH11"@,
            Opcodes::PUSH12 => "PUSH12"@,
            Opcodes::PUSH13 => "PUSH13"@,
            Opcodes::PUSH14 => "PUSH14"@,
            Opcodes::PUSH15 => "PUSH15"@,
            Opcodes::PUSH16 => "PUSH16"@,
            Opcodes::PUSH17 => "PUSH17"@,
            Opcodes::PUSH18 => "PUSH18"@,
            Opcodes::PUSH19 => "PUSH19"@,
            Opcodes::PUSH20 => "PUSH20"@,
            Opcodes::PUSH21 => "PUSH21"@,
            Opcodes::PUSH22 => "PUSH22"@,
            Opcodes::PUSH23 => "PUSH23"@,
            Opcodes::PUSH24 => "PUSH24"@,
            Opcodes::PUSH25 => "PUSH25"@,
            Opcodes::PUSH26 => "PUSH26"@,
            Opcodes::PUSH27 => "PUSH27"@,
            Opcodes::PUSH28 => "PUSH28"@,
            Opcodes::PUSH29 => "PUSH29"@,
            Opcodes::PUSH30 => "PUSH30"@,
            Opcodes::PUSH31 => "PUSH31"@,
            Opcodes::PUSH32 => "PUSH32"@,
            Opcodes::DUP1 => "DUP1"@,
            Opcodes::DUP2 => "DUP2"@,
            Opcodes::DUP3 => "DUP3"@,
            Opcodes::DUP4 => "DUP4"@,
            Opcodes::DUP5 => "DUP5"@,
            Opcodes::DUP6 => "DUP6"@,
            Opcodes::DUP7 => "DUP7"@,
            Opcodes::DUP8 => "DUP8"@,
            Opcodes::DUP9 => "DUP9"@,
            Opcodes::DUP10 => "DUP10"@,
            Opcodes::DUP11 => "DUP11"@,
            Opcodes::DUP12 => "DUP12"@,
            Opcodes::DUP13 => "DUP13"@,
            Opcodes::DUP14 => "DUP14"@,
            Opcodes::DUP15 => "DUP15"@,
            Opcodes::DUP16 => "DUP16"@,
            Opcodes::SWAP1 => "SWAP1"@,
            Opcodes::SWAP2 => "SWAP2"@,
            Opcodes::SWAP3 => "SWAP3"@,
            Opcodes::SWAP4 => "SWAP4"@,
            Opcodes::SWAP5 => "SWAP5"@,
            Opcodes::SWAP6 => "SWAP6"@,
            Opcodes::SWAP7 => "SWAP7"@,
            Opcodes::SWAP8 => "SWAP8"@,
            Opcodes::SWAP9 => "SWAP9"@,
            Opcodes::SWAP10 => "SWAP10"@,
            Opcodes::SWAP11 => "SWAP11"@,
            Opcodes::SWAP12 => "SWAP12"@,
            Opcodes::SWAP13 => "SWAP13"@,
            Opcodes::SWAP14 => "SWAP14"@,
            Opcodes::SWAP15 => "SWAP15"@,
            Opcodes::SWAP16 => "SWAP16"@,
            Opcodes::JUMP => "JUMP"@,
            Opcodes::JUMPI => "JUMPI"@,
            Opcodes::JUMPDEST => "JUMPDEST"@,
        }
    }

    /// What the instruction does to a state whose program counter stands
    /// just behind the instruction's opcode byte: the state it leaves and
    /// the fault, if any.
    #[verifier::opaque]
    pub open spec fn effect(self, s: MachineState) -> Effect {
        match self {
            Opcodes::STOP => done(MachineState { stopped: true, ..s }),
            Opcodes::ADD => binary_effect(
                s,
                add_mod(from_top(s.stack, 0)@, from_top(s.stack, 1)@),
            ),
            Opcodes::MUL => binary_effect(
                s,
                mul_mod(from_top(s.stack, 0)@, from_top(s.stack, 1)@),
            ),
            Opcodes::SUB => binary_effect(
                s,
                sub_mod(from_top(s.stack, 0)@, from_top(s.stack, 1)@),
            ),
            Opcodes::MSTORE8 => mstore8_effect(s),
            Opcodes::RETURN => return_effect(s),
            Opcodes::PC => pc_effect(s),
            Opcodes::MSIZE => push_effect(s, Word::from_nat(32 * (s.memory.len() / 32))),
            Opcodes::JUMP => jump_effect(s),
            Opcodes::JUMPI => jumpi_effect(s),
            Opcodes::JUMPDEST => done(s),
            _ => if 0x60 <= self.byte() <= 0x7F {
                immediate_effect(s, self.byte() - 0x5F)
            } else if 0x80 <= self.byte() <= 0x8F {
                dup_effect(s, self.byte() - 0x80)
            } else {
                swap_effect(s, self.byte() - 0x8F)
            },
        }
    }

    /// STOP halts and changes nothing else.
    pub proof fn lemma_stop_effect(s: MachineState)
        ensures
            Opcodes::STOP.effect(s) == done(MachineState { stopped: true, ..s }),
    {
        reveal(Opcodes::effect);
    }

    /// The byte that encodes the instruction.
    pub fn opcode(&self) -> (b: u8)
        ensures
            b == self.byte(),
    {
        match self {
            Opcodes::STOP => 0x00,
            Opcodes::ADD => 0x01,
            Opcodes::MUL => 0x02,
            Opcodes::SUB => 0x03,
            Opcodes::MSTORE8 => 0x53,
            Opcodes::RETURN => 0xF3,
            Opcodes::PC => 0x58,
            Opcodes::MSIZE => 0x59,
            Opcodes::PUSH1 => 0x60,
            Opcodes::PUSH2 => 0x61,
            Opcodes::PUSH3 => 0x62,
            Opcodes::PUSH4 => 0x63,
            Opcodes::PUSH5 => 0x64,
            Opcodes::PUSH6 => 0x65,
            Opcodes::PUSH7 => 0x66,
            Opcodes::PUSH8 => 0x67,
            Opcodes::PUSH9 => 0x68,
            Opcodes::PUSH10 => 0x69,
            Opcodes::PUSH11 => 0x6A,
            Opcodes::PUSH12 => 0x6B,
            Opcodes::PUSH13 => 0x6C,
            Opcodes::PUSH14 => 0x6D,
            Opcodes::PUSH15 => 0x6E,
            Opcodes::PUSH16 => 0x6F,
            Opcodes::PUSH17 => 0x70,
            Opcodes::PUSH18 => 0x71,
            Opcodes::PUSH19 => 0x72,
            Opcodes::PUSH20 => 0x73,
            Opcodes::PUSH21 => 0x74,
            Opcodes::PUSH22 => 0x75,
            Opcodes::PUSH23 => 0x76,
            Opcodes::PUSH24 => 0x77,
            Opcodes::PUSH25 => 0x78,
            Opcodes::PUSH26 => 0x79,
            Opcodes::PUSH27 => 0x7A,
            Opcodes::PUSH28 => 0x7B,
            Opcodes::PUSH29 => 0x7C,
            Opcodes::PUSH30 => 0x7D,
            Opcodes::PUSH31 => 0x7E,
            Opcodes::PUSH32 => 0x7F,
            Opcodes::DUP1 => 0x80,
            Opcodes::DUP2 => 0x81,
            Opcodes::DUP3 => 0x82,
            Opcodes::DUP4 => 0x83,
            Opcodes::DUP5 => 0x84,
            Opcodes::DUP6 => 0x85,
            Opcodes::DUP7 => 0x86,
            Opcodes::DUP8 => 0x87,
            Opcodes::DUP9 => 0x88,
            Opcodes::DUP10 => 0x89,
            Opcodes::DUP11 => 0x8A,
            Opcodes::DUP12 => 0x8B,
            Opcodes::DUP13 => 0x8C,
            Opcodes::DUP14 => 0x8D,
            Opcodes::DUP15 => 0x8E,
            Opcodes::DUP16 => 0x8F,
            Opcodes::SWAP1 => 0x90,
            Opcodes::SWAP2 => 0x91,
            Opcodes::SWAP3 => 0x92,
            Opcodes::SWAP4 => 0x93,
            Opcodes::SWAP5 => 0x94,
            Opcodes::SWAP6 => 0x95,
            Opcodes::SWAP7 => 0x96,
            Opcodes::SWAP8 => 0x97,
            Opcodes::SWAP9 => 0x98,
            Opcodes::SWAP10 => 0x99,
            Opcodes::SWAP11 => 0x9A,
            Opcodes::SWAP12 => 0x9B,
            Opcodes::SWAP13 => 0x9C,
            Opcodes::SWAP14 => 0x9D,
            Opcodes::SWAP15 => 0x9E,
            Opcodes::SWAP16 => 0x9F,
            Opcodes::JUMP => 0x56,
            Opcodes::JUMPI => 0x57,
            Opcodes::JUMPDEST => 0x5B,
        }
    }

    /// The instruction that `byte` encodes, if any.
    pub fn from_byte(byte: u8) -> (r: Option<Opcodes>)
        ensures
            r == Opcodes::of_byte(byte),
    {
        match byte {
            0x00 => Some(Opcodes::STOP),
            0x01 => Some(Opcodes::ADD),
            0x02 => Some(Opcodes::MUL),
            0x03 => Some(Opcodes::SUB),
            0x53 => Some(Opcodes::MSTORE8),
            0xF3 => Some(Opcodes::RETURN),
            0x58 => Some(Opcodes::PC),
            0x59 => Some(Opcodes::MSIZE),
            0x60 => Some(Opcodes::PUSH1),
            0x61 => Some(Opcodes::PUSH2),
            0x62 => Some(Opcodes::PUSH3),
            0x63 => Some(Opcodes::PUSH4),
            0x64 => Some(Opcodes::PUSH5),
            0x65 => Some(Opcodes::PUSH6),
            0x66 => Some(Opcodes::PUSH7),
            0x67 => Some(Opcodes::PUSH8),
            0x68 => Some(Opcodes::PUSH9),
            0x69 => Some(Opcodes::PUSH10),
            0x6A => Some(Opcodes::PUSH11),
            0x6B => Some(Opcodes::PUSH12),
            0x6C => Some(Opcodes::PUSH13),
            0x6D => Some(Opcodes::PUSH14),
            0x6E => Some(Opcodes::PUSH15),
            0x6F => Some(Opcodes::PUSH16),
            0x70 => Some(Opcodes::PUSH17),
            0x71 => Some(Opcodes::PUSH18),
            0x72 => Some(Opcodes::PUSH19),
            0x73 => Some(Opcodes::PUSH20),
            0x74 => Some(Opcodes::PUSH21),
            0x75 => Some(Opcodes::PUSH22),
            0x76 => Some(Opcodes::PUSH23),
            0x77 => Some(Opcodes::PUSH24),
            0x78 => Some(Opcodes::PUSH25),
            0x79 => Some(Opcodes::PUSH26),
            0x7A => Some(Opcodes::PUSH27),
            0x7B => Some(Opcodes::PUSH28),
            0x7C => Some(Opcodes::PUSH29),
            0x7D => Some(Opcodes::PUSH30),
            0x7E => Some(Opcodes::PUSH31),
            0x7F => Some(Opcodes::PUSH32),
            0x80 => Some(Opcodes::DUP1),
            0x81 => Some(Opcodes::DUP2),
            0x82 => Some(Opcodes::DUP3),
            0x83 => Some(Opcodes::DUP4),
            0x84 => Some(Opcodes::DUP5),
            0x85 => Some(Opcodes::DUP6),
            0x86 => Some(Opcodes::DUP7),
            0x87 => Some(Opcodes::DUP8),
            0x88 => Some(Opcodes::DUP9),
            0x89 => Some(Opcodes::DUP10),
            0x8A => Some(Opcodes::DUP11),
            0x8B => Some(Opcodes::DUP12),
            0x8C => Some(Opcodes::DUP13),
            0x8D => Some(Opcodes::DUP14),
            0x8E => Some(Opcodes::DUP15),
            0x8F => Some(Opcodes::DUP16),
            0x90 => Some(Opcodes::SWAP1),
            0x91 => Some(Opcodes::SWAP2),
            0x92 => Some(Opcodes::SWAP3),
            0x93 => Some(Opcodes::SWAP4),
            0x94 => Some(Opcodes::SWAP5),
            0x95 => Some(Opcodes::SWAP6),
            0x96 => Some(Opcodes::SWAP7),
            0x97 => Some(Opcodes::SWAP8),
            0x98 => Some(Opcodes::SWAP9),
            0x99 => Some(Opcodes::SWAP10),
            0x9A => Some(Opcodes::SWAP11),
            0x9B => Some(Opcodes::SWAP12),
            0x9C => Some(Opcodes::SWAP13),
            0x9D => Some(Opcodes::SWAP14),
            0x9E => Some(Opcodes::SWAP15),
            0x9F => Some(Opcodes::SWAP16),
            0x56 => Some(Opcodes::JUMP),
            0x57 => Some(Opcodes::JUMPI),
            0x5B => Some(Opcodes::JUMPDEST),
            _ => None,
        }
    }

    /// The mnemonic of the instruction.
    pub fn name(&self) -> (r: String)
        ensures
            r@ == self.name_spec(),
    {
        match self {
            Opcodes::STOP => "STOP".to_owned(),
            Opcodes::ADD => "ADD".to_owned(),
            Opcodes::MUL => "MUL".to_owned(),
            Opcodes::SUB => "SUB".to_owned(),
            Opcodes::MSTORE8 => "MSTORE8".to_owned(),
            Opcodes::RETURN => "RETURN".to_owned(),
            Opcodes::PC => "PC".to_owned(),
            Opcodes::MSIZE => "MSIZE".to_owned(),
            Opcodes::PUSH1 => "PUSH1".to_owned(),
            Opcodes::PUSH2 => "PUSH2".to_owned(),
            Opcodes::PUSH3 => "PUSH3".to_owned(),
            Opcodes::PUSH4 => "PUSH4".to_owned(),
            Opcodes::PUSH5 => "PUSH5".to_owned(),
            Opcodes::PUSH6 => "PUSH6".to_owned(),
            Opcodes::PUSH7 => "PUSH7".to_owned(),
            Opcodes::PUSH8 => "PUSH8".to_owned(),
            Opcodes::PUSH9 => "PUSH9".to_owned(),
            Opcodes::PUSH10 => "PUSH10".to_owned(),
            Opcodes::PUSH11 => "PUSH11".to_owned(),
            Opcodes::PUSH12 => "PUSH12".to_owned(),
            Opcodes::PUSH13 => "PUSH13".to_owned(),
            Opcodes::PUSH14 => "PUSH14".to_owned(),
            Opcodes::PUSH15 => "PUSH15".to_owned(),
            Opcodes::PUSH16 => "PUSH16".to_owned(),
            Opcodes::PUSH17 => "PUSH17".to_owned(),
            Opcodes::PUSH18 => "PUSH18".to_owned(),
            Opcodes::PUSH19 => "PUSH19".to_owned(),
            Opcodes::PUSH20 => "PUSH20".to_owned(),
            Opcodes::PUSH21 => "PUSH21".to_owned(),
            Opcodes::PUSH22 => "PUSH22".to_owned(),
            Opcodes::PUSH23 => "PUSH23".to_owned(),
            Opcodes::PUSH24 => "PUSH24".to_owned(),
            Opcodes::PUSH25 => "PUSH25".to_owned(),
            Opcodes::PUSH26 => "PUSH26".to_owned(),
            Opcodes::PUSH27 => "PUSH27".to_owned(),
            Opcodes::PUSH28 => "PUSH28".to_owned(),
            Opcodes::PUSH29 => "PUSH29".to_owned(),
            Opcodes::PUSH30 => "PUSH30".to_owned(),
            Opcodes::PUSH31 => "PUSH31".to_owned(),
            Opcodes::PUSH32 => "PUSH32".to_owned(),
            Opcodes::DUP1 => "DUP1".to_owned(),
            Opcodes::DUP2 => "DUP2".to_owned(),
            Opcodes::DUP3 => "DUP3".to_owned(),
            Opcodes::DUP4 => "DUP4".to_owned(),
            Opcodes::DUP5 => "DUP5".to_owned(),
            Opcodes::DUP6 => "DUP6".to_owned(),
            Opcodes::DUP7 => "DUP7".to_owned(),
            Opcodes::DUP8 => "DUP8".to_owned(),
            Opcodes::DUP9 => "DUP9".to_owned(),
            Opcodes::DUP10 => "DUP10".to_owned(),
            Opcodes::DUP11 => "DUP11".to_owned(),
            Opcodes::DUP12 => "DUP12".to_owned(),
            Opcodes::DUP13 => "DUP13".to_owned(),
            Opcodes::DUP14 => "DUP14".to_owned(),
            Opcodes::DUP15 => "DUP15".to_owned(),
            Opcodes::DUP16 => "DUP16".to_owned(),
            Opcodes::SWAP1 => "SWAP1".to_owned(),
            Opcodes::SWAP2 => "SWAP2".to_owned(),
            Opcodes::SWAP3 => "SWAP3".to_owned(),
            Opcodes::SWAP4 => "SWAP4".to_owned(),
            Opcodes::SWAP5 => "SWAP5".to_owned(),
            Opcodes::SWAP6 => "SWAP6".to_owned(),
            Opcodes::SWAP7 => "SWAP7".to_owned(),
            Opcodes::SWAP8 => "SWAP8".to_owned(),
            Opcodes::SWAP9 => "SWAP9".to_owned(),
            Opcodes::SWAP10 => "SWAP10".to_owned(),
            Opcodes::SWAP11 => "SWAP11".to_owned(),
            Opcodes::SWAP12 => "SWAP12".to_owned(),
            Opcodes::SWAP13 => "SWAP13".to_owned(),
            Opcodes::SWAP14 => "SWAP14".to_owned(),
            Opcodes::SWAP15 => "SWAP15".to_owned(),
            Opcodes::SWAP16 => "SWAP16".to_owned(),
            Opcodes::JUMP => "JUMP".to_owned(),
            Opcodes::JUMPI => "JUMPI".to_owned(),
            Opcodes::JUMPDEST => "JUMPDEST".to_owned(),
        }
    }

    /// A dispatch table with every instruction under its opcode byte.
    pub fn register_instructions() -> (registry: Registry)
        ensures
            registry.wf(),
            registry.is_standard(),
    {
        let mut registry: Registry = Registry::new();
        let mut byte: u8 = 0;
        loop
            invariant
                registry.wf(),
                forall|b: u8| b < byte ==> registry.holds_standard(b),
                forall|b: u8| b >= byte ==> registry.lookup(b) is None,
            ensures
                registry.wf(),
                forall|b: u8| registry.holds_standard(b),
            decreases 255 - byte,
        {
            let ghost before = registry;
            match Opcodes::from_byte(byte) {
                Some(executor) => {
                    Instruction::register_instruction(
                        &mut registry,
                        byte,
                        executor.name(),
                        executor,
                    );
                },
                None => {},
            }
            proof {
                assert forall|b: u8| b <= byte implies registry.holds_standard(b) by {
                    if b < byte {
                        assert(before.holds_standard(b));
                        assert(registry.lookup(b) == before.lookup(b));
                    }
                }
            }
            if byte == 255 {
                break ;
            }
            byte += 1;
        }
        registry
    }
}

/// What can be executed on a context.
pub trait OpcodeExecutor {
    /// What executing does to a state whose program counter stands just
    /// behind the instruction's opcode byte: the state it leaves and the
    /// fault, if any.
    spec fn outcome(&self, s: MachineState) -> Effect;

    /// Executes on `context`. A fault ends the instruction where it stands:
    /// what it popped before stays popped.
    fn execute(&self, context: &mut ExecutionContext) -> (r: Result<(), Errors>)
        requires
            old(context).wf(),
        ensures
            final(context).wf(),
            final(context)@ == self.outcome(old(context)@).state,
            r == reported(self.outcome(old(context)@)),
    ;
}

impl OpcodeExecutor for Opcodes {
    open spec fn outcome(&self, s: MachineState) -> Effect {
        self.effect(s)
    }

    fn execute(&self, context: &mut ExecutionContext) -> (r: Result<(), Errors>) {
        reveal(Opcodes::effect);
        match self {
            Opcodes::STOP => {
                context.stop();
                Ok(())
            },
            Opcodes::ADD => {
                let (a, b) = take_pair(context)?;
                put_result(context, a.wrapping_add(b))
            },
            Opcodes::MUL => {
                let (a, b) = take_pair(context)?;
                put_result(context, a.wrapping_mul(b))
            },
            Opcodes::SUB => {
                let (a, b) = take_pair(context)?;
                put_result(context, a.wrapping_sub(b))
            },
            Opcodes::MSTORE8 => execute_mstore8(context),
            Opcodes::RETURN => execute_return(context),
            Opcodes::PC => {
                if context.pc < 1 {
                    return Err(
                        Errors::Instruction(InstructionError::InvalidCodeOffset { pc: 0 }),
                    );
                }
                let here: Word = Word::from_usize(context.pc - 1);
                proof {
                    here.lemma_from_nat_of_view();
                }
                put_word(context, here)
            },
            Opcodes::MSIZE => {
                let size: Word = Word::from_usize(32 * context.memory.active_words());
                proof {
                    size.lemma_from_nat_of_view();
                }
                put_word(context, size)
            },
            Opcodes::PUSH1 | Opcodes::PUSH2 | Opcodes::PUSH3 | Opcodes::PUSH4 | Opcodes::PUSH5
            | Opcodes::PUSH6 | Opcodes::PUSH7 | Opcodes::PUSH8 | Opcodes::PUSH9
            | Opcodes::PUSH10 | Opcodes::PUSH11 | Opcodes::PUSH12 | Opcodes::PUSH13
            | Opcodes::PUSH14 | Opcodes::PUSH15 | Opcodes::PUSH16 | Opcodes::PUSH17
            | Opcodes::PUSH18 | Opcodes::PUSH19 | Opcodes::PUSH20 | Opcodes::PUSH21
            | Opcodes::PUSH22 | Opcodes::PUSH23 | Opcodes::PUSH24 | Opcodes::PUSH25
            | Opcodes::PUSH26 | Opcodes::PUSH27 | Opcodes::PUSH28 | Opcodes::PUSH29
            | Opcodes::PUSH30 | Opcodes::PUSH31 | Opcodes::PUSH32 => {
                execute_push(context, (self.opcode() - 0x5F) as usize)
            },
            Opcodes::DUP1 | Opcodes::DUP2 | Opcodes::DUP3 | Opcodes::DUP4 | Opcodes::DUP5
            | Opcodes::DUP6 | Opcodes::DUP7 | Opcodes::DUP8 | Opcodes::DUP9 | Opcodes::DUP10
            | Opcodes::DUP11 | Opcodes::DUP12 | Opcodes::DUP13 | Opcodes::DUP14 | Opcodes::DUP15
            | Opcodes::DUP16 => {
                execute_dup(context, (self.opcode() - 0x80) as usize)
            },
            Opcodes::SWAP1 | Opcodes::SWAP2 | Opcodes::SWAP3 | Opcodes::SWAP4 | Opcodes::SWAP5
            | Opcodes::SWAP6 | Opcodes::SWAP7 | Opcodes::SWAP8 | Opcodes::SWAP9
            | Opcodes::SWAP10 | Opcodes::SWAP11 | Opcodes::SWAP12 | Opcodes::SWAP13
            | Opcodes::SWAP14 | Opcodes::SWAP15 | Opcodes::SWAP16 => {
                execute_swap(context, (self.opcode() - 0x8F) as usize)
            },
            Opcodes::JUMP => execute_jump(context),
            Opcodes::JUMPI => execute_jumpi(context),
            Opcodes::JUMPDEST => Ok(()),
        }
    }
}

/// A stack fault as a fault of the run.
fn lift<T>(r: Result<T, StackError>) -> (out: Result<T, Errors>)
    ensures
        match r {
            Ok(v) => out == Ok::<T, Errors>(v),
            Err(e) => out == Err::<T, Errors>(Errors::Stack(e)),
        },
{
    match r {
        Ok(v) => Ok(v),
        Err(e) => Err(Errors::Stack(e)),
    }
}

/// Pops two words, the top first. Where the second pop underflows the
/// first word stays popped.
fn take_pair(context: &mut ExecutionContext) -> (r: Result<(Word, Word), Errors>)
    requires
        old(context).wf(),
    ensures
        final(context).wf(),
        final(context)@ == take_two(old(context)@).state,
        match take_two(old(context)@).fault {
            Some(e) => r == Err::<(Word, Word), Errors>(e),
            None => r == Ok::<(Word, Word), Errors>(
                (from_top(old(context)@.stack, 0), from_top(old(context)@.stack, 1)),
            ),
        },
{
    let first: Word = lift(context.stack.pop())?;
    let second: Word = lift(context.stack.pop())?;
    Ok((first, second))
}

/// Puts the result of an arithmetic instruction on the stack.
fn put_result(context: &mut ExecutionContext, word: Word) -> (r: Result<(), Errors>)
    requires
        old(context).wf(),
        old(context)@.stack.len() < MAX_STACK_DEPTH,
    ensures
        final(context).wf(),
        r == Ok::<(), Errors>(()),
        final(context)@ == (MachineState {
            stack: old(context)@.stack.push(Word::from_nat(word@)),
            ..old(context)@
        }),
{
    proof {
        word.lemma_from_nat_of_view();
    }
    lift(context.stack.push(word))
}

/// Puts `word` on the stack, if there is room.
fn put_word(context: &mut ExecutionContext, word: Word) -> (r: Result<(), Errors>)
    requires
        old(context).wf(),
    ensures
        final(context).wf(),
        final(context)@ == push_effect(old(context)@, word).state,
        r == reported(push_effect(old(context)@, word)),
{
    lift(context.stack.push(word))
}

/// PUSH with `width` immediate bytes.
fn execute_push(context: &mut ExecutionContext, width: usize) -> (r: Result<(), Errors>)
    requires
        old(context).wf(),
        1 <= width <= 32,
    ensures
        final(context).wf(),
        final(context)@ == immediate_effect(old(context)@, width as int).state,
        r == reported(immediate_effect(old(context)@, width as int)),
{
    if context.pc > usize::MAX - width {
        return Err(Errors::Instruction(InstructionError::InvalidCodeOffset { pc: context.pc }));
    }
    let value: Word = context.read_code(width);
    proof {
        value.lemma_from_nat_of_view();
    }
    put_word(context, value)
}

/// DUP of the word `depth` positions below the top.
fn execute_dup(context: &mut ExecutionContext, depth: usize) -> (r: Result<(), Errors>)
    requires
        old(context).wf(),
    ensures
        final(context).wf(),
        final(context)@ == dup_effect(old(context)@, depth as int).state,
        r == reported(dup_effect(old(context)@, depth as int)),
{
    let value: Word = lift(context.stack.peek(depth))?;
    put_word(context, value)
}

/// SWAP of the top with the word `depth` positions below it.
fn execute_swap(context: &mut ExecutionContext, depth: usize) -> (r: Result<(), Errors>)
    requires
        old(context).wf(),
        depth >= 1,
    ensures
        final(context).wf(),
        final(context)@ == swap_effect(old(context)@, depth as int).state,
        r == reported(swap_effect(old(context)@, depth as int)),
{
    lift(context.stack.swap(depth))
}

/// MSTORE8: stores the low byte of the second word at the offset on top.
fn execute_mstore8(context: &mut ExecutionContext) -> (r: Result<(), Errors>)
    requires
        old(context).wf(),
    ensures
        final(context).wf(),
        final(context)@ == mstore8_effect(old(context)@).state,
        r == reported(mstore8_effect(old(context)@)),
{
    let (offset, value) = take_pair(context)?;
    let one: Word = Word::from_u64(1);
    proof {
        one.lemma_from_nat_of_view();
    }
    let at: usize = match offset.to_usize() {
        Some(at) => at,
        None => {
            return Err(Errors::InvalidMemoryAccess(offset, one));
        },
    };
    match context.memory.store(at, value.low_byte() as usize) {
        Ok(()) => Ok(()),
        Err(_) => Err(Errors::InvalidMemoryAccess(offset, one)),
    }
}

/// RETURN: halts with the memory range that the two top words name.
fn execute_return(context: &mut ExecutionContext) -> (r: Result<(), Errors>)
    requires
        old(context).wf(),
    ensures
        final(context).wf(),
        final(context)@ == return_effect(old(context)@).state,
        r == reported(return_effect(old(context)@)),
{
    let (offset, length) = take_pair(context)?;
    let (at, count) = match (offset.to_usize(), length.to_usize()) {
        (Some(at), Some(count)) => (at, count),
        _ => {
            return Err(Errors::InvalidMemoryAccess(offset, length));
        },
    };
    match Memory::check_range(at, count) {
        Ok(()) => {},
        Err(_) => {
            return Err(Errors::InvalidMemoryAccess(offset, length));
        },
    }
    context.set_returndata(at, count);
    Ok(())
}

/// Moves the program counter to `target` if that is a jump destination.
fn jump(context: &mut ExecutionContext, target: Word) -> (r: Result<(), Errors>)
    requires
        old(context).wf(),
    ensures
        final(context).wf(),
        final(context)@ == jump_to(old(context)@, target).state,
        r == reported(jump_to(old(context)@, target)),
{
    match target.to_usize() {
        Some(pc) => {
            if context.is_valid_jump(pc) {
                context.set_pc(pc);
                Ok(())
            } else {
                Err(Errors::InvalidJumpDestination(target))
            }
        },
        None => Err(Errors::InvalidJumpDestination(target)),
    }
}

/// JUMP to the target on top of the stack.
fn execute_jump(context: &mut ExecutionContext) -> (r: Result<(), Errors>)
    requires
        old(context).wf(),
    ensures
        final(context).wf(),
        final(context)@ == jump_effect(old(context)@).state,
        r == reported(jump_effect(old(context)@)),
{
    let target: Word = lift(context.stack.pop())?;
    jump(context, target)
}

/// JUMPI: jumps to the target on top unless the condition below it is 0.
fn execute_jumpi(context: &mut ExecutionContext) -> (r: Result<(), Errors>)
    requires
        old(context).wf(),
    ensures
        final(context).wf(),
        final(context)@ == jumpi_effect(old(context)@).state,
        r == reported(jumpi_effect(old(context)@)),
{
    let (target, condition) = take_pair(context)?;
    if condition.is_zero() {
        return Ok(());
    }
    jump(context, target)
}


} // verus!
