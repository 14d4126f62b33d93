use vstd::prelude::*;
use vstd::string::StringExecFns;

use crate::container::{get_big_endian_word, MAX_TEXT};
use crate::error::OpError;
use crate::model::{
    arith, hex_chars, input_word, invoke_frame, op_result, op_spec, sext8, spec_arith, spec_cond_branch,
    spec_invoke, spec_ireturn, spec_ldc_w, step_spec, HaltReason, MachineModel,
};
use crate::opcodes::{
    BIPUSH, DUP, ERR, GOTO, HALT, IADD, IAND, IFEQ, IFLT, IF_ICMPEQ, IINC, ILOAD, IN, INVOKEVIRTUAL, IOR,
    IRETURN, ISTORE, ISUB, LDC_W, NOP, OUT, POP, SWAP, WIDE,
};
use crate::stack::{Stack, StackModel};

verus! {

/// The link value stored in the entry frame's link slot.
pub const MAIN_LINK_PTR: i32 = 257;

/// Words in a mebibyte.
pub const MB: usize = 262144;

/// Capacity of the stack of a machine built from a container.
pub const STACK_SIZE: usize = 1000 * MB;

/// A program being run: its stack, program counter, text and constant pool, and whether and
/// why it has halted.
pub struct Machine {
    stack: Stack,
    pc: i32,
    text: Vec<u8>,
    constant_pool: Vec<u8>,
    halt: bool,
    halt_reason: HaltReason,
}

impl View for Machine {
    type V = MachineModel;

    closed spec fn view(&self) -> MachineModel {
        MachineModel {
            stack: self.stack@,
            pc: self.pc as int,
            text: self.text@,
            pool: self.constant_pool@,
            halted: self.halt,
            reason: self.halt_reason,
        }
    }
}

/// A fresh machine: zeroed stack of `stack_size` words, entry frame linked to
/// `MAIN_LINK_PTR`, top just above it, program counter at the first byte of text.
pub open spec fn initial_model(text: Seq<u8>, pool: Seq<u8>, stack_size: nat) -> MachineModel {
    MachineModel {
        stack: StackModel {
            mem: Seq::new(stack_size, |i: int| 0i32).update(0, MAIN_LINK_PTR),
            sp: MAIN_LINK_PTR + 1,
            lv: 0,
        },
        pc: 0,
        text,
        pool,
        halted: false,
        reason: HaltReason::Generic,
    }
}

fn error_of(reason: HaltReason) -> (r: OpError)
    ensures
        r == reason.error(),
{
    match reason {
        HaltReason::EmptyStack => OpError::EmptyStackError,
        HaltReason::ReadFailed | HaltReason::WriteFailed => OpError::IoError,
        HaltReason::OutputNotAscii => OpError::OutputRangeError,
        _ => OpError::GenericError,
    }
}

/// Appends the hex digit for `d`.
fn push_hex_digit(s: &mut String, d: u8)
    requires
        d < 16,
    ensures
        final(s)@ == old(s)@ + hex_chars().subrange(d as int, d + 1),
{
    let digits = "0123456789abcdef";
    proof {
        reveal_strlit("0123456789abcdef");
    }
    assert(digits.is_ascii());
    s.append(digits.substring_ascii(d as usize, d as usize + 1));
}

fn sign_extend(b: u8) -> (r: i32)
    ensures
        r == sext8(b),
{
    if b < 128 {
        b as i32
    } else {
        b as i32 - 256
    }
}

impl Machine {
    pub fn new(text: Vec<u8>, constant_pool: Vec<u8>, stack_size: usize) -> (m: Machine)
        requires
            text@.len() <= MAX_TEXT,
            MAIN_LINK_PTR + 2 < stack_size <= i32::MAX,
        ensures
            m@.wf(),
            m@ == initial_model(text@, constant_pool@, stack_size as nat),
    {
        let stack = Stack::new(stack_size, MAIN_LINK_PTR);
        Machine { stack, pc: 0, text, constant_pool, halt: false, halt_reason: HaltReason::Generic }
    }

    pub fn pc(&self) -> (r: i32)
        ensures
            r == self@.pc,
    {
        self.pc
    }

    pub fn sp(&self) -> (r: usize)
        ensures
            r == self@.stack.sp,
    {
        self.stack.sp()
    }

    pub fn lv(&self) -> (r: usize)
        ensures
            r == self@.stack.lv,
    {
        self.stack.lv()
    }

    /// The word on top of the stack.
    pub fn top(&self) -> (r: i32)
        requires
            self@.wf(),
        ensures
            r == self@.stack.top(),
    {
        self.stack.get(self.stack.sp())
    }

    /// The word at absolute stack address `addr`, if there is such a slot.
    pub fn stack_at(&self, addr: usize) -> (r: Option<i32>)
        requires
            self@.wf(),
        ensures
            self@.stack.holds(addr as int) ==> r == Some(self@.stack.mem[addr as int]),
            !self@.stack.holds(addr as int) ==> r is None,
    {
        if addr < self.stack.capacity() {
            Some(self.stack.get(addr))
        } else {
            None
        }
    }

    pub fn is_halted(&self) -> (r: bool)
        ensures
            r == self@.halted,
    {
        self.halt
    }

    pub fn halt_reason(&self) -> (r: HaltReason)
        ensures
            r == self@.reason,
    {
        self.halt_reason
    }

    /// The message explaining why the machine halted.
    pub fn halt_msg(&self) -> (r: String)
        ensures
            r@ == self@.reason.message(),
    {
        match self.halt_reason {
            HaltReason::Generic => "Generic Error.".to_owned(),
            HaltReason::ErrReached => "ERR reached.".to_owned(),
            HaltReason::HaltReached => "HALT reached.".to_owned(),
            HaltReason::EndOfText => "End of text reached.".to_owned(),
            HaltReason::UnknownOpcode(op) => {
                let mut msg = String::from_str("Error: op_code 0x");
                if op >= 16 {
                    push_hex_digit(&mut msg, op / 16);
                }
                push_hex_digit(&mut msg, op % 16);
                msg.append(" unknown or not implemented.");
                msg
            },
            HaltReason::ConstantOutOfBounds => "Error: Attempting to get constant with index out of bounds.".to_owned(),
            HaltReason::EmptyStack => "Error: Popping from an empty stack.".to_owned(),
            HaltReason::ReadFailed => "IN: Error when reading.".to_owned(),
            HaltReason::WriteFailed => "OUT: Error when writing.".to_owned(),
            HaltReason::OutputNotAscii => "OUT: Error: value is not an ASCII code.".to_owned(),
            HaltReason::StackOverflow => "Error: Stack capacity exhausted.".to_owned(),
            HaltReason::AddressOutOfBounds => "Error: Stack address out of bounds.".to_owned(),
            HaltReason::PcOutOfText => "Error: Program counter outside the text.".to_owned(),
        }
    }

    /// Whether the next step executes IN and so needs a byte of input.
    pub fn wants_input(&self) -> (r: bool)
        requires
            self@.wf(),
        ensures
            r == (!self@.halted && self@.has_text(self@.pc, 1) && self@.text[self@.pc] == IN),
    {
        !self.halt && self.pc >= 0 && (self.pc as usize) < self.text.len() && self.text[self.pc as usize]
            == IN
    }

    /// Halts the machine because printing a byte failed.
    pub fn halt_on_write_error(&mut self)
        requires
            old(self)@.wf(),
        ensures
            final(self)@.wf(),
            final(self)@ == old(self)@.halt_with(HaltReason::WriteFailed),
    {
        self.halt = true;
        self.halt_reason = HaltReason::WriteFailed;
    }

    /// Notes `reason` and returns the error that goes with it.
    fn fail(&mut self, reason: HaltReason) -> (r: Result<Option<u8>, OpError>)
        requires
            old(self)@.wf(),
        ensures
            final(self)@ == old(self)@.record(reason),
            r == Err::<Option<u8>, OpError>(reason.error()),
    {
        self.halt_reason = reason;
        Err(error_of(reason))
    }

    /// The `n` bytes of text at the program counter exist.
    fn has_text(&self, n: usize) -> (r: bool)
        requires
            self@.wf(),
            n <= 4,
        ensures
            r == self@.has_text(self@.pc, n as int),
    {
        self.pc >= 0 && self.pc as usize + n <= self.text.len()
    }

    /// The text byte at the program counter.
    fn text_byte(&self, ahead: usize) -> (r: u8)
        requires
            self@.wf(),
            self@.has_text(self@.pc, ahead + 1),
        ensures
            r == self@.text[self@.pc + ahead],
    {
        self.text[self.pc as usize + ahead]
    }
}

/// The signed 16-bit operand at the program counter.
fn get_short_offset(machine: &Machine) -> (r: i32)
    requires
        machine@.wf(),
        machine@.has_text(machine@.pc, 2),
    ensures
        r == machine@.short_at(machine@.pc),
        -32768 <= r < 32768,
{
    short_at(&machine.text, machine.pc as usize)
}

fn short_at(text: &Vec<u8>, at: usize) -> (r: i32)
    requires
        at + 2 <= text@.len(),
    ensures
        r == sext8(text@[at as int]) * 256 + text@[at + 1],
        -32768 <= r < 32768,
{
    let len = text.len();
    assert(at + 2 <= len);
    sign_extend(text[at]) * 256 + text[at + 1] as i32
}

/// Constant `index` of the pool; out of range, notes why and fails.
fn get_constant(machine: &mut Machine, index: i32) -> (r: Result<i32, OpError>)
    requires
        old(machine)@.wf(),
    ensures
        match old(machine)@.constant(index as int) {
            Some(c) => r == Ok::<i32, OpError>(c) && final(machine)@ == old(machine)@,
            None => r == Err::<i32, OpError>(OpError::GenericError) && final(machine)@ == old(
                machine,
            )@.record(HaltReason::ConstantOutOfBounds),
        },
{
    if index < 0 || index as u64 * 4 + 4 > machine.constant_pool.len() as u64 {
        machine.halt_reason = HaltReason::ConstantOutOfBounds;
        return Err(OpError::GenericError);
    }
    let mut at: usize = index as usize * 4;
    Ok(get_big_endian_word(&machine.constant_pool, &mut at))
}

/// Address of local `index` of the active frame.
fn calc_lv_index(machine: &Machine, index: u8) -> (r: usize)
    requires
        machine@.wf(),
    ensures
        r == machine@.stack.local_addr(index as int),
{
    let lv = machine.stack.lv();
    lv + index as usize + if lv == 0 {
        1
    } else {
        0
    }
}

/// Pops the top word; on the bottom slot, notes an empty stack and fails.
fn pop_safe(machine: &mut Machine) -> (r: Result<i32, OpError>)
    requires
        old(machine)@.wf(),
    ensures
        final(machine)@.wf(),
        old(machine)@.stack.sp == 0 ==> r == Err::<i32, OpError>(OpError::EmptyStackError)
            && final(machine)@ == old(machine)@.record(HaltReason::EmptyStack),
        old(machine)@.stack.sp > 0 ==> r == Ok::<i32, OpError>(old(machine)@.stack.top())
            && final(machine)@ == old(machine)@.with_stack(old(machine)@.stack.pop()),
{
    match machine.stack.pop() {
        Ok(v) => Ok(v),
        Err(e) => {
            machine.halt_reason = HaltReason::EmptyStack;
            Err(e)
        },
    }
}

/// IADD, ISUB, IAND or IOR. Any other opcode pops both operands and fails with a generic error.
fn two_operand_instruction_common(machine: &mut Machine, op_code: u8) -> (r: Result<Option<u8>, OpError>)
    requires
        old(machine)@.wf(),
    ensures
        final(machine)@.wf(),
        op_code == IADD || op_code == ISUB || op_code == IAND || op_code == IOR ==> op_result(
            old(machine)@,
            final(machine)@,
            r,
            spec_arith(op_code, old(machine)@),
        ),
        !(op_code == IADD || op_code == ISUB || op_code == IAND || op_code == IOR) ==> if old(
            machine,
        )@.stack.sp < 2 {
            op_result(old(machine)@, final(machine)@, r, Err(HaltReason::EmptyStack))
        } else {
            r == Err::<Option<u8>, OpError>(OpError::GenericError) && final(machine)@ == old(
                machine,
            )@.with_stack(old(machine)@.stack.pop().pop())
        },
{
    if machine.stack.sp() < 2 {
        return machine.fail(HaltReason::EmptyStack);
    }
    let a = pop_safe(machine)?;
    let b = pop_safe(machine)?;
    let res = if op_code == IADD {
        a.wrapping_add(b)
    } else if op_code == ISUB {
        b.wrapping_sub(a)
    } else if op_code == IAND {
        a & b
    } else if op_code == IOR {
        a | b
    } else {
        return Err(OpError::GenericError);
    };
    assert(res == arith(op_code, a, b));
    machine.stack.push(res);
    Ok(None)
}

/// IFEQ, IFLT and IF_ICMPEQ: pops `n` operands and branches where `taken`.
fn conditional_branch(machine: &mut Machine, n: usize, taken: bool) -> (r: Result<Option<u8>, OpError>)
    requires
        old(machine)@.wf(),
        n == 1 || n == 2,
    ensures
        final(machine)@.wf(),
        op_result(old(machine)@, final(machine)@, r, spec_cond_branch(old(machine)@, n as int, taken)),
{
    if machine.stack.sp() < n {
        return machine.fail(HaltReason::EmptyStack);
    }
    if !machine.has_text(2) {
        return machine.fail(HaltReason::PcOutOfText);
    }
    pop_safe(machine)?;
    if n == 2 {
        pop_safe(machine)?;
    }
    if taken {
        let offset = get_short_offset(machine) - 1;
        machine.pc = machine.pc + offset;
    } else {
        machine.pc = machine.pc + 2;
    }
    Ok(None)
}

/// LDC_W: pushes the constant that the 16-bit operand names.
fn load_constant(machine: &mut Machine) -> (r: Result<Option<u8>, OpError>)
    requires
        old(machine)@.wf(),
    ensures
        final(machine)@.wf(),
        op_result(old(machine)@, final(machine)@, r, spec_ldc_w(old(machine)@)),
{
    if !machine.has_text(2) {
        return machine.fail(HaltReason::PcOutOfText);
    }
    let i = get_short_offset(machine);
    let c = match get_constant(machine, i) {
        Ok(c) => c,
        Err(e) => return Err(e),
    };
    if machine.stack.sp() + 1 >= machine.stack.capacity() {
        return machine.fail(HaltReason::StackOverflow);
    }
    machine.stack.push(c);
    machine.pc = machine.pc + 2;
    Ok(None)
}

/// ILOAD: pushes local `index`.
fn load_lv(machine: &mut Machine, index: u8) -> (r: Result<Option<u8>, OpError>)
    requires
        old(machine)@.wf(),
    ensures
        final(machine)@.wf(),
        ({
            let s = old(machine)@;
            let addr = s.stack.local_addr(index as int);
            if !s.stack.holds(addr) {
                r == Err::<Option<u8>, OpError>(OpError::GenericError) && final(machine)@ == s.record(
                    HaltReason::AddressOutOfBounds,
                )
            } else if !s.stack.room(1) {
                r == Err::<Option<u8>, OpError>(OpError::GenericError) && final(machine)@ == s.record(
                    HaltReason::StackOverflow,
                )
            } else {
                r == Ok::<Option<u8>, OpError>(None) && final(machine)@ == s.with_stack(
                    s.stack.push(s.stack.mem[addr]),
                )
            }
        }),
{
    let addr = calc_lv_index(machine, index);
    if addr >= machine.stack.capacity() {
        return machine.fail(HaltReason::AddressOutOfBounds);
    }
    if machine.stack.sp() + 1 >= machine.stack.capacity() {
        return machine.fail(HaltReason::StackOverflow);
    }
    let val = machine.stack.get(addr);
    machine.stack.push(val);
    Ok(None)
}

/// ISTORE: pops a word into local `index`.
fn store_lv(machine: &mut Machine, index: u8) -> (r: Result<Option<u8>, OpError>)
    requires
        old(machine)@.wf(),
    ensures
        final(machine)@.wf(),
        ({
            let s = old(machine)@;
            let addr = s.stack.local_addr(index as int);
            if s.stack.sp < 1 {
                r == Err::<Option<u8>, OpError>(OpError::EmptyStackError) && final(machine)@
                    == s.record(HaltReason::EmptyStack)
            } else if !s.stack.holds(addr) {
                r == Err::<Option<u8>, OpError>(OpError::GenericError) && final(machine)@ == s.record(
                    HaltReason::AddressOutOfBounds,
                )
            } else {
                r == Ok::<Option<u8>, OpError>(None) && final(machine)@ == s.with_stack(
                    s.stack.pop().set(addr, s.stack.top()),
                )
            }
        }),
{
    if machine.stack.sp() < 1 {
        return machine.fail(HaltReason::EmptyStack);
    }
    let addr = calc_lv_index(machine, index);
    if addr >= machine.stack.capacity() {
        return machine.fail(HaltReason::AddressOutOfBounds);
    }
    let val = pop_safe(machine)?;
    machine.stack.set(addr, val);
    Ok(None)
}

/// INVOKEVIRTUAL: builds the callee's frame on the stack and jumps to its entry.
fn invoke_virtual(machine: &mut Machine) -> (r: Result<Option<u8>, OpError>)
    requires
        old(machine)@.wf(),
    ensures
        final(machine)@.wf(),
        op_result(old(machine)@, final(machine)@, r, spec_invoke(old(machine)@)),
{
    if !machine.has_text(2) {
        return machine.fail(HaltReason::PcOutOfText);
    }
    let old_lv = machine.stack.lv();
    let old_pc = machine.pc + 2;
    let i = get_short_offset(machine);
    let entry = match get_constant(machine, i) {
        Ok(c) => c,
        Err(e) => return Err(e),
    };
    if entry < 0 || entry as usize + 4 > machine.text.len() {
        return machine.fail(HaltReason::PcOutOfText);
    }
    let num_args = short_at(&machine.text, entry as usize);
    let num_lv = short_at(&machine.text, entry as usize + 2);
    let sp = machine.stack.sp();
    let cap = machine.stack.capacity();
    let new_lv: i64 = sp as i64 - num_args as i64 + 1;
    if new_lv < 0 || new_lv >= cap as i64 || num_lv < 0 {
        return machine.fail(HaltReason::AddressOutOfBounds);
    }
    if sp + num_lv as usize + 2 >= cap {
        return machine.fail(HaltReason::StackOverflow);
    }
    let ghost st = machine@.stack;
    machine.pc = entry + 4;
    machine.stack.set_cursors(sp + num_lv as usize, new_lv as usize);
    machine.stack.push(old_pc);
    machine.stack.push(old_lv as i32);
    let link = machine.stack.sp() - 1;
    machine.stack.set(new_lv as usize, link as i32);
    assert(machine@.stack == invoke_frame(st, old(machine)@.pc + 2, num_args as int, num_lv as int));
    Ok(None)
}

/// IRETURN: drops the callee's frame, restores the caller's and leaves the return value on top.
fn ireturn(machine: &mut Machine) -> (r: Result<Option<u8>, OpError>)
    requires
        old(machine)@.wf(),
    ensures
        final(machine)@.wf(),
        op_result(old(machine)@, final(machine)@, r, spec_ireturn(old(machine)@)),
{
    let sp = machine.stack.sp();
    let lv = machine.stack.lv();
    let cap = machine.stack.capacity();
    if sp < 1 {
        return machine.fail(HaltReason::EmptyStack);
    }
    let link = machine.stack.get(lv);
    if link < 0 || link as usize + 1 >= cap {
        return machine.fail(HaltReason::AddressOutOfBounds);
    }
    let ret_pc = machine.stack.get(link as usize);
    let ret_lv = machine.stack.get(link as usize + 1);
    if ret_lv < 0 || ret_lv as usize >= cap {
        return machine.fail(HaltReason::AddressOutOfBounds);
    }
    if lv < 1 {
        return machine.fail(HaltReason::EmptyStack);
    }
    let return_value = machine.stack.get(sp);
    machine.pc = ret_pc;
    machine.stack.set_cursors(lv - 1, ret_lv as usize);
    machine.stack.push(return_value);
    Ok(None)
}

/// Executes `op_code` on a machine whose program counter is just past it. `input` is the byte
/// read for IN, `None` where reading failed. Returns the byte OUT prints.
pub fn do_op(op_code: u8, machine: &mut Machine, input: Option<u8>) -> (r: Result<Option<u8>, OpError>)
    requires
        old(machine)@.wf(),
    ensures
        final(machine)@.wf(),
        op_result(old(machine)@, final(machine)@, r, op_spec(op_code, old(machine)@, input)),
{
    if op_code == BIPUSH {
        if !machine.has_text(1) {
            return machine.fail(HaltReason::PcOutOfText);
        }
        if machine.stack.sp() + 1 >= machine.stack.capacity() {
            return machine.fail(HaltReason::StackOverflow);
        }
        let v = sign_extend(machine.text_byte(0));
        machine.stack.push(v);
        machine.pc = machine.pc + 1;
        Ok(None)
    } else if op_code == DUP {
        if machine.stack.sp() + 1 >= machine.stack.capacity() {
            return machine.fail(HaltReason::StackOverflow);
        }
        let v = machine.top();
        machine.stack.push(v);
        Ok(None)
    } else if op_code == IADD || op_code == ISUB || op_code == IAND || op_code == IOR {
        two_operand_instruction_common(machine, op_code)
    } else if op_code == NOP || op_code == WIDE {
        Ok(None)
    } else if op_code == POP {
        if machine.stack.sp() < 1 {
            return machine.fail(HaltReason::EmptyStack);
        }
        pop_safe(machine)?;
        Ok(None)
    } else if op_code == SWAP {
        if machine.stack.sp() < 2 {
            return machine.fail(HaltReason::EmptyStack);
        }
        let a = pop_safe(machine)?;
        let b = pop_safe(machine)?;
        machine.stack.push(a);
        machine.stack.push(b);
        Ok(None)
    } else if op_code == ERR {
        machine.halt_reason = HaltReason::ErrReached;
        machine.halt = true;
        Ok(None)
    } else if op_code == HALT {
        machine.halt_reason = HaltReason::HaltReached;
        machine.halt = true;
        Ok(None)
    } else if op_code == IN {
        match input {
            None => machine.fail(HaltReason::ReadFailed),
            Some(b) => {
                if machine.stack.sp() + 1 >= machine.stack.capacity() {
                    return machine.fail(HaltReason::StackOverflow);
                }
                let v: i32 = if b == 10 {
                    0
                } else {
                    b as i32
                };
                assert(v == input_word(b));
                machine.stack.push(v);
                Ok(None)
            },
        }
    } else if op_code == OUT {
        if machine.stack.sp() < 1 {
            return machine.fail(HaltReason::EmptyStack);
        }
        let c = machine.top();
        if c < 0 || c > 127 {
            return machine.fail(HaltReason::OutputNotAscii);
        }
        pop_safe(machine)?;
        Ok(Some(c as u8))
    } else if op_code == GOTO {
        if !machine.has_text(2) {
            return machine.fail(HaltReason::PcOutOfText);
        }
        let offset = get_short_offset(machine) - 1;
        machine.pc = machine.pc + offset;
        Ok(None)
    } else if op_code == IFEQ {
        let taken = machine.stack.sp() >= 1 && machine.top() == 0;
        conditional_branch(machine, 1, taken)
    } else if op_code == IFLT {
        let taken = machine.stack.sp() >= 1 && machine.top() < 0;
        conditional_branch(machine, 1, taken)
    } else if op_code == IF_ICMPEQ {
        let sp = machine.stack.sp();
        let taken = sp >= 2 && machine.top() == machine.stack.get(sp - 1);
        conditional_branch(machine, 2, taken)
    } else if op_code == LDC_W {
        load_constant(machine)
    } else if op_code == ILOAD {
        if !machine.has_text(1) {
            return machine.fail(HaltReason::PcOutOfText);
        }
        let i = machine.text_byte(0);
        let r = load_lv(machine, i);
        if r.is_ok() {
            machine.pc = machine.pc + 1;
        }
        r
    } else if op_code == ISTORE {
        if !machine.has_text(1) {
            return machine.fail(HaltReason::PcOutOfText);
        }
        let i = machine.text_byte(0);
        let r = store_lv(machine, i);
        if r.is_ok() {
            machine.pc = machine.pc + 1;
        }
        r
    } else if op_code == IINC {
        if !machine.has_text(2) {
            return machine.fail(HaltReason::PcOutOfText);
        }
        let i = machine.text_byte(0);
        let delta = sign_extend(machine.text_byte(1));
        let addr = calc_lv_index(machine, i);
        if addr >= machine.stack.capacity() {
            return machine.fail(HaltReason::AddressOutOfBounds);
        }
        machine.pc = machine.pc + 2;
        let v = machine.stack.get(addr).wrapping_add(delta);
        machine.stack.set(addr, v);
        Ok(None)
    } else if op_code == INVOKEVIRTUAL {
        invoke_virtual(machine)
    } else if op_code == IRETURN {
        ireturn(machine)
    } else {
        machine.fail(HaltReason::UnknownOpcode(op_code))
    }
}

/// Runs one fetch-decode-execute cycle and returns the byte printed, if any. `input` is the
/// byte read for IN (see `Machine::wants_input`), `None` where reading failed.
pub fn step(machine: &mut Machine, input: Option<u8>) -> (out: Option<u8>)
    requires
        old(machine)@.wf(),
    ensures
        final(machine)@.wf(),
        (final(machine)@, out) == step_spec(old(machine)@, input),
{
    if machine.halt {
        return None;
    }
    if !machine.has_text(1) {
        machine.halt_reason = HaltReason::PcOutOfText;
        machine.halt = true;
        return None;
    }
    let cur_op = machine.text_byte(0);
    machine.pc = machine.pc + 1;
    match do_op(cur_op, machine, input) {
        Ok(out) => {
            if !machine.halt && machine.pc as i64 >= machine.text.len() as i64 {
                machine.halt = true;
                machine.halt_reason = HaltReason::EndOfText;
            }
            out
        },
        Err(_) => {
            machine.halt = true;
            None
        },
    }
}

} // verus!
