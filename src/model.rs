use vstd::prelude::*;

use crate::container::{be_word_at, MAX_TEXT};
use crate::error::OpError;
use crate::opcodes::{
    BIPUSH, DUP, ERR, GOTO, HALT, IADD, IAND, IFEQ, IFLT, IF_ICMPEQ, IINC, ILOAD, IN, INVOKEVIRTUAL, IOR,
    IRETURN, ISTORE, ISUB, LDC_W, NOP, OUT, POP, SWAP, WIDE,
};
use crate::stack::StackModel;

verus! {

/// Why a machine stopped, or will stop once its current step ends.
#[derive(Debug, Clone, Copy, PartialEq, Eq, Structural)]
pub enum HaltReason {
    /// Nothing more specific is known.
    Generic,
    ErrReached,
    HaltReached,
    EndOfText,
    UnknownOpcode(u8),
    ConstantOutOfBounds,
    EmptyStack,
    ReadFailed,
    WriteFailed,
    OutputNotAscii,
    StackOverflow,
    AddressOutOfBounds,
    PcOutOfText,
}

impl HaltReason {
    /// The message a machine halted for this reason reports; an unknown opcode is named in hex.
    pub open spec fn message(self) -> Seq<char> {
        match self {
            HaltReason::Generic => "Generic Error."@,
            HaltReason::ErrReached => "ERR reached."@,
            HaltReason::HaltReached => "HALT reached."@,
            HaltReason::EndOfText => "End of text reached."@,
            HaltReason::UnknownOpcode(op) => "Error: op_code 0x"@ + hex_digits(op)
                + " unknown or not implemented."@,
            HaltReason::ConstantOutOfBounds => "Error: Attempting to get constant with index out of bounds."@,
            HaltReason::EmptyStack => "Error: Popping from an empty stack."@,
            HaltReason::ReadFailed => "IN: Error when reading."@,
            HaltReason::WriteFailed => "OUT: Error when writing."@,
            HaltReason::OutputNotAscii => "OUT: Error: value is not an ASCII code."@,
            HaltReason::StackOverflow => "Error: Stack capacity exhausted."@,
            HaltReason::AddressOutOfBounds => "Error: Stack address out of bounds."@,
            HaltReason::PcOutOfText => "Error: Program counter outside the text."@,
        }
    }

    /// The error an instruction returns when it stops for this reason.
    pub open spec fn error(self) -> OpError {
        match self {
            HaltReason::EmptyStack => OpError::EmptyStackError,
            HaltReason::ReadFailed | HaltReason::WriteFailed => OpError::IoError,
            HaltReason::OutputNotAscii => OpError::OutputRangeError,
            _ => OpError::GenericError,
        }
    }
}

/// Lower-case hexadecimal digits, indexed by their value.
pub open spec fn hex_chars() -> Seq<char> {
    "0123456789abcdef"@
}

/// The hex digits of `b` without leading zeros, as `{:x}` writes them.
pub open spec fn hex_digits(b: u8) -> Seq<char> {
    if b < 16 {
        hex_chars().subrange(b as int, b + 1)
    } else {
        hex_chars().subrange(b as int / 16, b as int / 16 + 1) + hex_chars().subrange(
            b as int % 16,
            b as int % 16 + 1,
        )
    }
}

/// The mathematical picture of a machine.
pub struct MachineModel {
    pub stack: StackModel,
    pub pc: int,
    pub text: Seq<u8>,
    pub pool: Seq<u8>,
    pub halted: bool,
    pub reason: HaltReason,
}

/// What an instruction does: the next state and a byte to print, or why it failed.
pub type OpOutcome = Result<(MachineModel, Option<u8>), HaltReason>;

/// A byte read as a signed 8-bit value.
pub open spec fn sext8(b: u8) -> i32 {
    if b < 128 {
        b as i32
    } else {
        (b - 256) as i32
    }
}

/// IADD, ISUB, IAND and IOR on `a`, popped first, and `b`, popped second.
pub open spec fn arith(op: u8, a: i32, b: i32) -> i32 {
    if op == IADD {
        a.wrapping_add(b)
    } else if op == ISUB {
        b.wrapping_sub(a)
    } else if op == IAND {
        a & b
    } else {
        a | b
    }
}

/// What `IN` pushes for a byte read: a newline marks the end of input.
pub open spec fn input_word(b: u8) -> i32 {
    if b == 10 {
        0
    } else {
        b as i32
    }
}

impl MachineModel {
    pub open spec fn wf(self) -> bool {
        &&& self.stack.wf()
        &&& self.text.len() <= MAX_TEXT
    }

    pub open spec fn with_stack(self, st: StackModel) -> MachineModel {
        MachineModel { stack: st, ..self }
    }

    pub open spec fn with_pc(self, pc: int) -> MachineModel {
        MachineModel { pc, ..self }
    }

    /// The machine with `reason` noted as the cause of a coming halt.
    pub open spec fn record(self, reason: HaltReason) -> MachineModel {
        MachineModel { reason, ..self }
    }

    pub open spec fn halt_with(self, reason: HaltReason) -> MachineModel {
        MachineModel { halted: true, reason, ..self }
    }

    /// The `n` bytes of text from `at` on exist.
    pub open spec fn has_text(self, at: int, n: int) -> bool {
        0 <= at && at + n <= self.text.len()
    }

    /// The signed big-endian 16-bit value in the text at `at`.
    pub open spec fn short_at(self, at: int) -> int {
        sext8(self.text[at]) * 256 + self.text[at + 1]
    }

    /// Constant `index` of the pool, if its four bytes lie within the pool.
    pub open spec fn constant(self, index: int) -> Option<i32> {
        if 0 <= 4 * index && 4 * index + 4 <= self.pool.len() {
            Some(be_word_at(self.pool, 4 * index))
        } else {
            None
        }
    }

    /// The branch taken by GOTO and the conditional branches: relative to the opcode, whose
    /// address is one below the offset's.
    pub open spec fn branch(self) -> MachineModel {
        self.with_pc(self.pc + self.short_at(self.pc) - 1)
    }
}

pub open spec fn spec_bipush(s: MachineModel) -> OpOutcome {
    if !s.has_text(s.pc, 1) {
        Err(HaltReason::PcOutOfText)
    } else if !s.stack.room(1) {
        Err(HaltReason::StackOverflow)
    } else {
        Ok((s.with_stack(s.stack.push(sext8(s.text[s.pc]))).with_pc(s.pc + 1), None))
    }
}

pub open spec fn spec_dup(s: MachineModel) -> OpOutcome {
    if !s.stack.room(1) {
        Err(HaltReason::StackOverflow)
    } else {
        Ok((s.with_stack(s.stack.push(s.stack.top())), None))
    }
}

pub open spec fn spec_arith(op: u8, s: MachineModel) -> OpOutcome {
    if s.stack.sp < 2 {
        Err(HaltReason::EmptyStack)
    } else {
        let a = s.stack.top();
        let b = s.stack.mem[s.stack.sp - 1];
        Ok((s.with_stack(s.stack.pop().pop().push(arith(op, a, b))), None))
    }
}

pub open spec fn spec_pop(s: MachineModel) -> OpOutcome {
    if s.stack.sp < 1 {
        Err(HaltReason::EmptyStack)
    } else {
        Ok((s.with_stack(s.stack.pop()), None))
    }
}

pub open spec fn spec_swap(s: MachineModel) -> OpOutcome {
    if s.stack.sp < 2 {
        Err(HaltReason::EmptyStack)
    } else {
        let a = s.stack.top();
        let b = s.stack.mem[s.stack.sp - 1];
        Ok((s.with_stack(s.stack.pop().pop().push(a).push(b)), None))
    }
}

pub open spec fn spec_in(s: MachineModel, input: Option<u8>) -> OpOutcome {
    match input {
        None => Err(HaltReason::ReadFailed),
        Some(b) => if !s.stack.room(1) {
            Err(HaltReason::StackOverflow)
        } else {
            Ok((s.with_stack(s.stack.push(input_word(b))), None))
        },
    }
}

pub open spec fn spec_out(s: MachineModel) -> OpOutcome {
    if s.stack.sp < 1 {
        Err(HaltReason::EmptyStack)
    } else if !(0 <= s.stack.top() <= 127) {
        Err(HaltReason::OutputNotAscii)
    } else {
        Ok((s.with_stack(s.stack.pop()), Some(s.stack.top() as u8)))
    }
}

pub open spec fn spec_goto(s: MachineModel) -> OpOutcome {
    if !s.has_text(s.pc, 2) {
        Err(HaltReason::PcOutOfText)
    } else {
        Ok((s.branch(), None))
    }
}

/// IFEQ, IFLT and IF_ICMPEQ: `taken` is the condition on the operands, `n` their number. The
/// two offset bytes must be there whether or not the branch is taken.
pub open spec fn spec_cond_branch(s: MachineModel, n: int, taken: bool) -> OpOutcome {
    if s.stack.sp < n {
        Err(HaltReason::EmptyStack)
    } else if !s.has_text(s.pc, 2) {
        Err(HaltReason::PcOutOfText)
    } else {
        let popped = if n == 1 {
            s.with_stack(s.stack.pop())
        } else {
            s.with_stack(s.stack.pop().pop())
        };
        if taken {
            Ok((popped.branch(), None))
        } else {
            Ok((popped.with_pc(s.pc + 2), None))
        }
    }
}

pub open spec fn spec_ldc_w(s: MachineModel) -> OpOutcome {
    if !s.has_text(s.pc, 2) {
        Err(HaltReason::PcOutOfText)
    } else {
        match s.constant(s.short_at(s.pc)) {
            None => Err(HaltReason::ConstantOutOfBounds),
            Some(c) => if !s.stack.room(1) {
                Err(HaltReason::StackOverflow)
            } else {
                Ok((s.with_stack(s.stack.push(c)).with_pc(s.pc + 2), None))
            },
        }
    }
}

pub open spec fn spec_iload(s: MachineModel) -> OpOutcome {
    if !s.has_text(s.pc, 1) {
        Err(HaltReason::PcOutOfText)
    } else {
        let addr = s.stack.local_addr(s.text[s.pc] as int);
        if !s.stack.holds(addr) {
            Err(HaltReason::AddressOutOfBounds)
        } else if !s.stack.room(1) {
            Err(HaltReason::StackOverflow)
        } else {
            Ok((s.with_stack(s.stack.push(s.stack.mem[addr])).with_pc(s.pc + 1), None))
        }
    }
}

pub open spec fn spec_istore(s: MachineModel) -> OpOutcome {
    if !s.has_text(s.pc, 1) {
        Err(HaltReason::PcOutOfText)
    } else if s.stack.sp < 1 {
        Err(HaltReason::EmptyStack)
    } else {
        let addr = s.stack.local_addr(s.text[s.pc] as int);
        if !s.stack.holds(addr) {
            Err(HaltReason::AddressOutOfBounds)
        } else {
            Ok((s.with_stack(s.stack.pop().set(addr, s.stack.top())).with_pc(s.pc + 1), None))
        }
    }
}

pub open spec fn spec_iinc(s: MachineModel) -> OpOutcome {
    if !s.has_text(s.pc, 2) {
        Err(HaltReason::PcOutOfText)
    } else {
        let addr = s.stack.local_addr(s.text[s.pc] as int);
        if !s.stack.holds(addr) {
            Err(HaltReason::AddressOutOfBounds)
        } else {
            let v = s.stack.mem[addr].wrapping_add(sext8(s.text[s.pc + 1]));
            Ok((s.with_stack(s.stack.set(addr, v)).with_pc(s.pc + 2), None))
        }
    }
}

/// The frame that INVOKEVIRTUAL builds for a callee declaring `num_args` and `num_lv`.
pub open spec fn invoke_frame(st: StackModel, ret_pc: int, num_args: int, num_lv: int) -> StackModel {
    let new_lv = st.sp - num_args + 1;
    let reserved = StackModel { sp: st.sp + num_lv, lv: new_lv, mem: st.mem };
    let saved = reserved.push(ret_pc as i32).push(st.lv as i32);
    saved.set(new_lv, (saved.sp - 1) as i32)
}

pub open spec fn spec_invoke(s: MachineModel) -> OpOutcome {
    if !s.has_text(s.pc, 2) {
        Err(HaltReason::PcOutOfText)
    } else {
        match s.constant(s.short_at(s.pc)) {
            None => Err(HaltReason::ConstantOutOfBounds),
            Some(entry) => if !s.has_text(entry as int, 4) {
                Err(HaltReason::PcOutOfText)
            } else {
                let num_args = s.short_at(entry as int);
                let num_lv = s.short_at(entry + 2);
                if !s.stack.holds(s.stack.sp - num_args + 1) || num_lv < 0 {
                    Err(HaltReason::AddressOutOfBounds)
                } else if !s.stack.room(num_lv + 2) {
                    Err(HaltReason::StackOverflow)
                } else {
                    Ok(
                        (
                            s.with_stack(invoke_frame(s.stack, s.pc + 2, num_args, num_lv)).with_pc(
                                entry + 4,
                            ),
                            None,
                        ),
                    )
                }
            },
        }
    }
}

pub open spec fn spec_ireturn(s: MachineModel) -> OpOutcome {
    if s.stack.sp < 1 {
        Err(HaltReason::EmptyStack)
    } else {
        let rv = s.stack.top();
        let link = s.stack.link() as int;
        if !(s.stack.holds(link) && s.stack.holds(link + 1)) {
            Err(HaltReason::AddressOutOfBounds)
        } else {
            let ret_pc = s.stack.mem[link];
            let ret_lv = s.stack.mem[link + 1] as int;
            if !s.stack.holds(ret_lv) {
                Err(HaltReason::AddressOutOfBounds)
            } else if s.stack.lv < 1 {
                Err(HaltReason::EmptyStack)
            } else {
                let collapsed = StackModel { sp: s.stack.lv - 1, lv: ret_lv, mem: s.stack.mem };
                Ok((s.with_stack(collapsed.push(rv)).with_pc(ret_pc as int), None))
            }
        }
    }
}

/// What executing `op` does to `s`, whose program counter is just past the opcode; `input` is
/// the byte read for IN, `None` where reading failed.
pub open spec fn op_spec(op: u8, s: MachineModel, input: Option<u8>) -> OpOutcome {
    if op == BIPUSH {
        spec_bipush(s)
    } else if op == DUP {
        spec_dup(s)
    } else if op == IADD || op == ISUB || op == IAND || op == IOR {
        spec_arith(op, s)
    } else if op == NOP || op == WIDE {
        Ok((s, None))
    } else if op == POP {
        spec_pop(s)
    } else if op == SWAP {
        spec_swap(s)
    } else if op == ERR {
        Ok((s.halt_with(HaltReason::ErrReached), None))
    } else if op == HALT {
        Ok((s.halt_with(HaltReason::HaltReached), None))
    } else if op == IN {
        spec_in(s, input)
    } else if op == OUT {
        spec_out(s)
    } else if op == GOTO {
        spec_goto(s)
    } else if op == IFEQ {
        spec_cond_branch(s, 1, s.stack.sp >= 1 && s.stack.top() == 0)
    } else if op == IFLT {
        spec_cond_branch(s, 1, s.stack.sp >= 1 && s.stack.top() < 0)
    } else if op == IF_ICMPEQ {
        spec_cond_branch(s, 2, s.stack.sp >= 2 && s.stack.top() == s.stack.mem[s.stack.sp - 1])
    } else if op == LDC_W {
        spec_ldc_w(s)
    } else if op == ILOAD {
        spec_iload(s)
    } else if op == ISTORE {
        spec_istore(s)
    } else if op == IINC {
        spec_iinc(s)
    } else if op == INVOKEVIRTUAL {
        spec_invoke(s)
    } else if op == IRETURN {
        spec_ireturn(s)
    } else {
        Err(HaltReason::UnknownOpcode(op))
    }
}

/// The machine after one instruction and what it printed. A halted machine stays as it is;
/// a failure halts with its reason; running past the text halts with `EndOfText`.
pub open spec fn step_spec(s: MachineModel, input: Option<u8>) -> (MachineModel, Option<u8>) {
    if s.halted {
        (s, None)
    } else if !s.has_text(s.pc, 1) {
        (s.halt_with(HaltReason::PcOutOfText), None)
    } else {
        let fetched = s.with_pc(s.pc + 1);
        match op_spec(s.text[s.pc], fetched, input) {
            Err(reason) => (fetched.halt_with(reason), None),
            Ok((t, out)) => (
                if !t.halted && t.pc >= t.text.len() {
                    t.halt_with(HaltReason::EndOfText)
                } else {
                    t
                },
                out,
            ),
        }
    }
}

/// `r` and `new` are what an instruction returned and left when `expect` describes it.
pub open spec fn op_result(
    old: MachineModel,
    new: MachineModel,
    r: Result<Option<u8>, OpError>,
    expect: OpOutcome,
) -> bool {
    match expect {
        Ok((t, out)) => new == t && r == Ok::<Option<u8>, OpError>(out),
        Err(reason) => new == old.record(reason) && r == Err::<Option<u8>, OpError>(reason.error()),
    }
}

} // verus!
