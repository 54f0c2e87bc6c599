//! Instructions and the dispatch table that maps opcode bytes to them.

use crate::buffer::bytes_len;
use crate::execution_context::ExecutionContext;
use crate::opcodes::Opcodes;
use crate::word::{lemma_be_value_push, padded};
use vstd::prelude::*;

verus! {

/// One entry of the dispatch table.
#[derive(Debug)]
pub struct Instruction {
    pub opcode: u8,
    pub name: String,
    pub executor: Opcodes,
}

/// Why the next instruction could not be had.
#[derive(Clone, Copy, Debug, PartialEq, Eq, Structural)]
pub enum InstructionError {
    /// The program counter `pc` cannot move past the instruction's bytes.
    InvalidCodeOffset { pc: usize },
    /// The table holds nothing under this opcode byte.
    InvalidOpcode(u8),
}

/// The dispatch table: for each opcode byte the instruction registered
/// under it, if any, and the STOP that stands in where the code has ended.
#[derive(Debug)]
pub struct Registry {
    pub by_opcode: Vec<Option<Instruction>>,
    pub stop: Instruction,
}

/// The table that holds every instruction under its own opcode byte.
pub open spec fn standard_table() -> Seq<Option<Opcodes>> {
    Seq::new(256, |b: int| Opcodes::of_byte(b as u8))
}

impl Registry {
    /// The table has one slot for each byte, every entry stands under its
    /// own opcode byte, and the stand-in is STOP.
    pub open spec fn wf(&self) -> bool {
        &&& self.by_opcode@.len() == 256
        &&& forall|byte: u8|
            (#[trigger] self.lookup(byte)) is Some ==> self.lookup(byte)->Some_0.opcode == byte
        &&& self.stop.opcode == 0
        &&& self.stop.executor == Opcodes::STOP
        &&& self.stop.name@ == Opcodes::STOP.name_spec()
    }

    /// The instruction registered under `byte`.
    pub open spec fn lookup(&self, byte: u8) -> Option<Instruction> {
        self.by_opcode@[byte as int]
    }

    /// What each opcode byte executes.
    pub open spec fn table(&self) -> Seq<Option<Opcodes>> {
        Seq::new(
            256,
            |b: int|
                match self.by_opcode@[b] {
                    Some(instruction) => Some(instruction.executor),
                    None => None,
                },
        )
    }

    /// Under `byte` stands the instruction that the byte encodes, with its
    /// mnemonic, or nothing where the byte encodes none.
    pub open spec fn holds_standard(&self, byte: u8) -> bool {
        match Opcodes::of_byte(byte) {
            Some(op) => match self.lookup(byte) {
                Some(instruction) => instruction.opcode == byte && instruction.executor == op
                    && instruction.name@ == op.name_spec(),
                None => false,
            },
            None => self.lookup(byte) is None,
        }
    }

    /// Every byte holds what it encodes.
    pub open spec fn is_standard(&self) -> bool {
        forall|byte: u8| self.holds_standard(byte)
    }

    /// A table with nothing registered.
    pub fn new() -> (registry: Registry)
        ensures
            registry.wf(),
            forall|byte: u8| registry.lookup(byte) is None,
    {
        let mut by_opcode: Vec<Option<Instruction>> = Vec::new();
        let mut i: usize = 0;
        while i < 256
            invariant
                i <= 256,
                by_opcode@.len() == i,
                forall|j: int| 0 <= j < i ==> by_opcode@[j] is None,
            decreases 256 - i,
        {
            by_opcode.push(None);
            i += 1;
        }
        let stop = Instruction {
            opcode: Opcodes::STOP.opcode(),
            name: Opcodes::STOP.name(),
            executor: Opcodes::STOP,
        };
        Registry { by_opcode, stop }
    }
}

/// A table that holds every instruction under its own byte executes the
/// standard table.
pub proof fn lemma_standard_table(registry: &Registry)
    requires
        registry.wf(),
        registry.is_standard(),
    ensures
        registry.table() == standard_table(),
{
    assert forall|b: int| 0 <= b < 256 implies registry.table()[b] == standard_table()[b] by {
        assert(registry.holds_standard(b as u8));
    }
    assert(registry.table() =~= standard_table());
}

impl Instruction {
    /// Puts an instruction into the table under `opcode`, in place of what
    /// stood there.
    pub fn register_instruction(
        registry: &mut Registry,
        opcode: u8,
        name: String,
        executor: Opcodes,
    )
        requires
            old(registry).wf(),
        ensures
            final(registry).wf(),
            final(registry).stop == old(registry).stop,
            final(registry).lookup(opcode) == Some(Instruction { opcode, name, executor }),
            forall|byte: u8|
                byte != opcode ==> final(registry).lookup(byte) == old(registry).lookup(byte),
    {
        let ghost before = *registry;
        let instruction = Instruction { opcode, name, executor };
        registry.by_opcode[opcode as usize] = Some(instruction);
        assert forall|byte: u8| (#[trigger] registry.lookup(byte)) is Some implies registry.lookup(
            byte,
        )->Some_0.opcode == byte by {
            if byte != opcode {
                assert(registry.lookup(byte) == before.lookup(byte));
            }
        }
    }

    /// The next instruction of the run. Where the program counter is at or
    /// past the end of the code this is the stand-in STOP and nothing moves;
    /// otherwise the opcode byte at the program counter is consumed and
    /// looked up in the table.
    pub fn decode_opcode<'a>(registry: &'a Registry, context: &mut ExecutionContext) -> (r:
        Result<&'a Instruction, InstructionError>)
        requires
            registry.wf(),
        ensures
            old(context).pc >= old(context)@.code.len() ==> *final(context) == *old(context) && r
                == Ok::<&Instruction, InstructionError>(&registry.stop),
            old(context).pc < old(context)@.code.len() ==> final(context).pc == old(context).pc
                + 1 && *final(context) == (ExecutionContext {
                pc: final(context).pc,
                ..*old(context)
            }) && (match registry.lookup(old(context)@.code[old(context).pc as int]) {
                Some(instruction) => r == Ok::<&Instruction, InstructionError>(&instruction)
                    && instruction.opcode == old(context)@.code[old(context).pc as int],
                None => r == Err::<&Instruction, InstructionError>(
                    InstructionError::InvalidOpcode(old(context)@.code[old(context).pc as int]),
                ),
            }),
    {
        if context.pc >= bytes_len(&context.code) {
            return Ok(&registry.stop);
        }
        proof {
            lemma_be_value_push(Seq::<u8>::empty(), context@.code[context.pc as int]);
            assert(padded(context@.code, context.pc as int, 1)
                =~= Seq::<u8>::empty().push(context@.code[context.pc as int]));
        }
        let opcode: u8 = context.read_code(1).low_byte();
        match &registry.by_opcode[opcode as usize] {
            Some(instruction) => Ok(instruction),
            None => Err(InstructionError::InvalidOpcode(opcode)),
        }
    }
}

} // verus!
