//! The state of one run: code, stack, memory, program counter, the halted
//! flag, the return buffer and the valid jump destinations.

use crate::buffer::{bytes_clone, bytes_get, bytes_len, bytes_new, bytes_seq};
use crate::calldata::{read_padded_word, Calldata};
use crate::memory::{expanded, last_covered, memory_limit, Memory};
use crate::stack::Stack;
use crate::word::{be_value, padded, Word};
use bytes::Bytes;
use vstd::prelude::*;

verus! {

/// The opcode byte of JUMPDEST.
pub const JUMPDEST_BYTE: u8 = 0x5B;

/// The opcode byte of PUSH1.
pub const PUSH1_BYTE: u8 = 0x60;

/// The opcode byte of PUSH32.
pub const PUSH32_BYTE: u8 = 0x7F;

/// The greatest depth of the operand stack.
pub const MAX_STACK_DEPTH: usize = 1024;

/// The number of immediate bytes that follow the opcode `byte`: 1 to 32 for
/// PUSH1 to PUSH32, 0 for every other byte.
pub open spec fn immediate_width(byte: u8) -> int {
    if PUSH1_BYTE <= byte <= PUSH32_BYTE {
        byte - PUSH1_BYTE + 1
    } else {
        0
    }
}

/// The valid jump destinations at or after instruction start `i`, in
/// ascending order: every offset that holds JUMPDEST and is reached by
/// stepping from instruction to instruction, over the immediate bytes of
/// each PUSH.
pub open spec fn jump_destinations_from(code: Seq<u8>, i: int) -> Seq<usize>
    decreases code.len() - i,
{
    if i < 0 || i >= code.len() {
        Seq::<usize>::empty()
    } else if code[i] == JUMPDEST_BYTE {
        seq![i as usize] + jump_destinations_from(code, i + 1)
    } else if i + 1 + immediate_width(code[i]) >= code.len() {
        Seq::<usize>::empty()
    } else {
        jump_destinations_from(code, i + 1 + immediate_width(code[i]))
    }
}

/// The valid jump destinations of `code`.
pub open spec fn jump_destinations(code: Seq<u8>) -> Seq<usize> {
    jump_destinations_from(code, 0)
}

/// Whether a jump to `target` is allowed in `code`.
pub open spec fn is_jump_destination(code: Seq<u8>, target: nat) -> bool {
    exists|i: int|
        0 <= i < jump_destinations(code).len() && #[trigger] jump_destinations(code)[i] == target
}

/// Every valid jump destination at or after `i` lies inside the code, at or
/// after `i`, and holds JUMPDEST.
pub proof fn lemma_jump_destinations_hold_jumpdest(code: Seq<u8>, i: int, j: int)
    requires
        0 <= i,
        code.len() <= usize::MAX,
        0 <= j < jump_destinations_from(code, i).len(),
    ensures
        i <= jump_destinations_from(code, i)[j] < code.len(),
        code[jump_destinations_from(code, i)[j] as int] == JUMPDEST_BYTE,
    decreases code.len() - i,
{
    if code[i] == JUMPDEST_BYTE {
        if j > 0 {
            lemma_jump_destinations_hold_jumpdest(code, i + 1, j - 1);
        }
    } else {
        lemma_jump_destinations_hold_jumpdest(code, i + 1 + immediate_width(code[i]), j);
    }
}

/// The state of a run as plain values. The stack's top is its last item.
pub struct MachineState {
    pub code: Seq<u8>,
    pub calldata: Seq<u8>,
    pub stack: Seq<Word>,
    pub memory: Seq<u8>,
    pub pc: int,
    pub stopped: bool,
    pub returndata: Seq<u8>,
}

/// Everything a run works on. The context owns its stack and memory; the
/// code is fixed when the context is made.
#[derive(Debug)]
pub struct ExecutionContext {
    pub code: Bytes,
    pub stack: Stack,
    pub memory: Memory,
    pub pc: usize,
    pub stopped: bool,
    pub returndata: Bytes,
    pub jumpdests: Vec<usize>,
    pub calldata: Calldata,
}

impl View for ExecutionContext {
    type V = MachineState;

    open spec fn view(&self) -> MachineState {
        MachineState {
            code: bytes_seq(self.code),
            calldata: self.calldata@,
            stack: self.stack@,
            memory: self.memory@,
            pc: self.pc as int,
            stopped: self.stopped,
            returndata: bytes_seq(self.returndata),
        }
    }
}

impl ExecutionContext {
    /// The stack holds at most 1024 words, memory is whole words, and the
    /// jump destinations are those of the code.
    pub open spec fn wf(&self) -> bool {
        &&& self.stack.wf()
        &&& self.stack.max_depth == MAX_STACK_DEPTH
        &&& self.memory.wf()
        &&& self.jumpdests@ == jump_destinations(bytes_seq(self.code))
    }

    /// A fresh context for `code`: empty stack, memory and return buffer, the
    /// program counter at 0, not halted. The input buffer holds the code.
    pub fn new(code: Bytes) -> (c: ExecutionContext)
        ensures
            c.wf(),
            c@ == (MachineState {
                code: bytes_seq(code),
                calldata: bytes_seq(code),
                stack: Seq::<Word>::empty(),
                memory: Seq::<u8>::empty(),
                pc: 0,
                stopped: false,
                returndata: Seq::<u8>::empty(),
            }),
    {
        let calldata: Bytes = bytes_clone(&code);
        Self::with_calldata(code, calldata)
    }

    /// A fresh context for `code` whose input buffer holds `calldata`.
    pub fn with_calldata(code: Bytes, calldata: Bytes) -> (c: ExecutionContext)
        ensures
            c.wf(),
            c@ == (MachineState {
                code: bytes_seq(code),
                calldata: bytes_seq(calldata),
                stack: Seq::<Word>::empty(),
                memory: Seq::<u8>::empty(),
                pc: 0,
                stopped: false,
                returndata: Seq::<u8>::empty(),
            }),
    {
        Self {
            code: bytes_clone(&code),
            stack: Stack::new(MAX_STACK_DEPTH),
            memory: Memory::new(),
            pc: 0,
            stopped: false,
            returndata: bytes_new(),
            jumpdests: Self::valid_jump_destinations(code),
            calldata: Calldata::new(calldata),
        }
    }

    /// Halts the run.
    pub fn stop(&mut self)
        ensures
            *final(self) == (ExecutionContext { stopped: true, ..*old(self) }),
    {
        self.stopped = true;
    }

    /// The big-endian number that the next `num_bytes` bytes of code spell,
    /// with 0 for every byte past the end of the code. The program counter
    /// moves past them.
    pub fn read_code(&mut self, num_bytes: usize) -> (r: Word)
        requires
            num_bytes <= 32,
            old(self).pc + num_bytes <= usize::MAX,
        ensures
            r@ == be_value(padded(old(self)@.code, old(self).pc as int, num_bytes as nat)),
            *final(self) == (ExecutionContext {
                pc: (old(self).pc + num_bytes) as usize,
                ..*old(self)
            }),
    {
        let value: Word = read_padded_word(&self.code, self.pc, num_bytes);
        self.pc += num_bytes;
        value
    }

    /// Halts the run and makes the `length` bytes of memory from `offset` on
    /// the return buffer. Memory grows to cover them.
    pub fn set_returndata(&mut self, offset: usize, length: usize)
        requires
            old(self).wf(),
            last_covered(offset as int, length as int) < memory_limit(),
        ensures
            final(self).wf(),
            final(self)@ == (MachineState {
                stopped: true,
                memory: expanded(old(self)@.memory, last_covered(offset as int, length as int)),
                returndata: expanded(
                    old(self)@.memory,
                    last_covered(offset as int, length as int),
                ).subrange(offset as int, offset + length),
                ..old(self)@
            }),
    {
        self.stopped = true;
        self.returndata = self.memory.load_range(offset, length);
    }

    /// Moves the program counter to `pc`, whatever it is.
    pub fn set_pc(&mut self, pc: usize)
        ensures
            *final(self) == (ExecutionContext { pc, ..*old(self) }),
    {
        self.pc = pc;
    }

    /// Whether `target` is among the jump destinations found when the
    /// context was made.
    pub fn is_valid_jump(&self, target: usize) -> (r: bool)
        requires
            self.wf(),
        ensures
            r == is_jump_destination(self@.code, target as nat),
    {
        let mut i: usize = 0;
        while i < self.jumpdests.len()
            invariant
                self.wf(),
                i <= self.jumpdests@.len(),
                forall|j: int| 0 <= j < i ==> self.jumpdests@[j] != target,
            decreases self.jumpdests@.len() - i,
        {
            if self.jumpdests[i] == target {
                assert(jump_destinations(self@.code)[i as int] == target);
                return true;
            }
            i += 1;
        }
        false
    }

    /// The valid jump destinations of `code`, in ascending order.
    pub fn valid_jump_destinations(code: Bytes) -> (jumpdests: Vec<usize>)
        ensures
            jumpdests@ == jump_destinations(bytes_seq(code)),
    {
        let mut jumpdests: Vec<usize> = Vec::new();
        let len: usize = bytes_len(&code);
        let mut i: usize = 0;
        while i < len
            invariant
                i <= len,
                len == bytes_seq(code).len(),
                jumpdests@ + jump_destinations_from(bytes_seq(code), i as int)
                    == jump_destinations(bytes_seq(code)),
            decreases len - i,
        {
            let current_op: u8 = bytes_get(&code, i);
            let ghost rest = jump_destinations_from(bytes_seq(code), i as int);
            if current_op == JUMPDEST_BYTE {
                jumpdests.push(i);
                assert(jumpdests@ + jump_destinations_from(bytes_seq(code), i + 1)
                    =~= jumpdests@.drop_last() + rest);
                i += 1;
            } else if PUSH1_BYTE <= current_op && current_op <= PUSH32_BYTE {
                let skip: usize = (current_op - PUSH1_BYTE) as usize + 2;
                if len - i <= skip {
                    i = len;
                } else {
                    i += skip;
                }
            } else {
                i += 1;
            }
        }
        assert(jumpdests@ + Seq::<usize>::empty() =~= jumpdests@);
        jumpdests
    }
}

} // verus!
