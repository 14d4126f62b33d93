use vstd::prelude::*;

use crate::container::{be_word_at, MAX_TEXT};
use crate::machine::{initial_model, MAIN_LINK_PTR};
use crate::model::{
    input_word, op_spec, sext8, step_spec, HaltReason, MachineModel,
};
use crate::opcodes::{BIPUSH, GOTO, HALT, IADD, IN, INVOKEVIRTUAL, IRETURN, ISUB, LDC_W, NOP};

verus! {

/// The machine after `n` steps that read no input.
pub open spec fn run_spec(s: MachineModel, n: nat) -> MachineModel
    decreases n,
{
    if n == 0 {
        s
    } else {
        run_spec(step_spec(s, None).0, (n - 1) as nat)
    }
}

/// Running `BIPUSH v; HALT` from a fresh machine halts on HALT with `v`, sign-extended, on
/// top of the stack.
pub proof fn lemma_bipush_round_trip(v: u8, pool: Seq<u8>, stack_size: nat)
    requires
        MAIN_LINK_PTR + 2 < stack_size <= i32::MAX,
    ensures
        ({
            let s = run_spec(initial_model(seq![BIPUSH, v, HALT], pool, stack_size), 2);
            &&& s.halted
            &&& s.reason == HaltReason::HaltReached
            &&& s.stack.top() == sext8(v)
            &&& s.stack.top() == (if v < 128 { v as int } else { v - 256 })
        }),
{
    let s0 = initial_model(seq![BIPUSH, v, HALT], pool, stack_size);
    let s1 = step_spec(s0, None).0;
    assert(s1.text[1] == v);
    assert(s1.text[s1.pc] == HALT);
    assert(run_spec(s0, 2) == run_spec(s1, 1));
    assert(run_spec(s1, 1) == run_spec(step_spec(s1, None).0, 0));
}

/// With `x` pushed and then `y`, IADD leaves `x + y` and ISUB leaves `x - y`, both wrapped to
/// 32 bits, in place of the two operands; nothing below them changes.
pub proof fn lemma_add_sub(s: MachineModel, x: i32, y: i32, input: Option<u8>)
    requires
        s.wf(),
        s.stack.room(2),
    ensures
        ({
            let p = s.with_stack(s.stack.push(x).push(y));
            &&& op_spec(IADD, p, input) matches Ok((t, None)) && t.stack.sp == s.stack.sp + 1
                && t.stack.top() == x.wrapping_add(y) && t.pc == s.pc && t.stack.lv == s.stack.lv
                && forall|k: int| 0 <= k <= s.stack.sp ==> t.stack.mem[k] == s.stack.mem[k]
            &&& op_spec(ISUB, p, input) matches Ok((t, None)) && t.stack.sp == s.stack.sp + 1
                && t.stack.top() == x.wrapping_sub(y) && t.pc == s.pc && t.stack.lv == s.stack.lv
                && forall|k: int| 0 <= k <= s.stack.sp ==> t.stack.mem[k] == s.stack.mem[k]
        }),
{
}

/// Entry offset of the method that the INVOKEVIRTUAL operand at the program counter names.
pub open spec fn invoked_entry(s: MachineModel) -> int {
    s.constant(s.short_at(s.pc))->Some_0 as int
}

/// After INVOKEVIRTUAL of a method declaring `n >= 1` arguments, and any callee that keeps its
/// frame link and the words below its frame and ends with `r` on top, IRETURN leaves the
/// stack pointer at its value before the call minus `n` plus 1, `r` on top, the caller's frame
/// and return address back, and every word below `r` as before the call: nothing the callee
/// wrote in its frame remains visible.
pub proof fn lemma_frame_isolation(s: MachineModel, c: MachineModel, r: i32, input: Option<u8>)
    requires
        s.wf(),
        op_spec(INVOKEVIRTUAL, s, input) is Ok,
        s.short_at(invoked_entry(s)) >= 1,
        s.stack.sp - s.short_at(invoked_entry(s)) + 1 >= 1,
        ({
            let t = op_spec(INVOKEVIRTUAL, s, input)->Ok_0.0;
            let link = t.stack.mem[t.stack.lv] as int;
            &&& c.wf()
            &&& c.stack.lv == t.stack.lv
            &&& c.stack.mem.len() == t.stack.mem.len()
            &&& c.stack.mem[c.stack.lv] == t.stack.mem[t.stack.lv]
            &&& c.stack.mem[link] == t.stack.mem[link]
            &&& c.stack.mem[link + 1] == t.stack.mem[link + 1]
            &&& forall|k: int| 0 <= k < t.stack.lv ==> c.stack.mem[k] == t.stack.mem[k]
            &&& c.stack.sp >= 1
            &&& c.stack.top() == r
        }),
    ensures
        op_spec(IRETURN, c, input) matches Ok((u, None)) && {
            &&& u.stack.sp == s.stack.sp - s.short_at(invoked_entry(s)) + 1
            &&& u.stack.top() == r
            &&& u.stack.lv == s.stack.lv
            &&& u.pc == s.pc + 2
            &&& forall|k: int| 0 <= k < u.stack.sp ==> u.stack.mem[k] == s.stack.mem[k]
        },
{
}

/// LDC_W fails with a decoding error, noting an out-of-range constant, when the index's byte
/// offset plus 4 exceeds the pool; within the pool it pushes the big-endian word stored there.
pub proof fn lemma_constant_bounds(s: MachineModel, input: Option<u8>)
    requires
        s.wf(),
        s.has_text(s.pc, 2),
    ensures
        ({
            let index = s.short_at(s.pc);
            &&& 4 * index + 4 > s.pool.len() ==> op_spec(LDC_W, s, input) == Err::<
                (MachineModel, Option<u8>),
                HaltReason,
            >(HaltReason::ConstantOutOfBounds) && HaltReason::ConstantOutOfBounds.error()
                == crate::error::OpError::GenericError
            &&& 0 <= index && 4 * index + 4 <= s.pool.len() && s.stack.room(1) ==> op_spec(
                LDC_W,
                s,
                input,
            ) == Ok::<(MachineModel, Option<u8>), HaltReason>(
                (s.with_stack(s.stack.push(be_word_at(s.pool, 4 * index))).with_pc(s.pc + 2), None),
            )
        }),
{
}

/// IN pushes 0 for a newline and the byte's unsigned value for any other byte.
pub proof fn lemma_in_sentinel(s: MachineModel, b: u8)
    requires
        s.wf(),
        s.stack.room(1),
    ensures
        op_spec(IN, s, Some(b)) == Ok::<(MachineModel, Option<u8>), HaltReason>(
            (s.with_stack(s.stack.push(if b == 10 { 0i32 } else { b as i32 })), None),
        ),
        b == 10 ==> input_word(b) == 0,
        b != 10 ==> input_word(b) == b as int,
{
}

/// A run of `k` NOPs changes nothing but the program counter, which moves past them: the
/// instruction after them sees the machine as it would without them.
pub proof fn lemma_nop_run(s: MachineModel, k: nat)
    requires
        s.wf(),
        !s.halted,
        0 <= s.pc,
        s.pc + k < s.text.len(),
        forall|i: int| s.pc <= i < s.pc + k ==> s.text[i] == NOP,
    ensures
        run_spec(s, k) == s.with_pc(s.pc + k),
    decreases k,
{
    if k > 0 {
        let t = step_spec(s, None).0;
        assert(t == s.with_pc(s.pc + 1));
        lemma_nop_run(t, (k - 1) as nat);
        assert(t.with_pc(t.pc + (k - 1)) == s.with_pc(s.pc + k));
    }
}

/// `GOTO` over `k` NOPs onto `HALT`, its offset split into `hi` and `lo`.
pub open spec fn goto_text(hi: u8, lo: u8, k: nat) -> Seq<u8> {
    seq![GOTO, hi, lo] + Seq::new(k, |i: int| NOP) + seq![HALT]
}

/// A GOTO whose offset lands exactly on the HALT after `k` NOPs jumps there and halts on it;
/// an offset one byte further runs off the text and halts on its end instead; with no NOPs, an
/// offset one byte short lands on the offset's own low byte, which is no opcode.
pub proof fn lemma_branch_offset(hi: u8, lo: u8, k: nat, pool: Seq<u8>, stack_size: nat)
    requires
        hi < 128,
        k + 4 <= MAX_TEXT,
        MAIN_LINK_PTR + 2 < stack_size <= i32::MAX,
    ensures
        hi * 256 + lo == k + 3 ==> ({
            let s1 = run_spec(initial_model(goto_text(hi, lo, k), pool, stack_size), 1);
            let s2 = run_spec(initial_model(goto_text(hi, lo, k), pool, stack_size), 2);
            &&& s1.pc == k + 3 && !s1.halted
            &&& s2.halted && s2.reason == HaltReason::HaltReached
        }),
        hi * 256 + lo == k + 4 ==> ({
            let s1 = run_spec(initial_model(goto_text(hi, lo, k), pool, stack_size), 1);
            s1.halted && s1.reason == HaltReason::EndOfText
        }),
        k == 0 && hi * 256 + lo == 2 ==> ({
            let s2 = run_spec(initial_model(goto_text(hi, lo, k), pool, stack_size), 2);
            s2.halted && s2.reason == HaltReason::UnknownOpcode(2)
        }),
{
    let text = goto_text(hi, lo, k);
    let s0 = initial_model(text, pool, stack_size);
    assert(text.len() == k + 4);
    assert(text[0] == GOTO);
    assert(text[1] == hi);
    assert(text[2] == lo);
    assert(text[k as int + 3] == HALT);
    let s1 = step_spec(s0, None).0;
    assert(run_spec(s0, 1) == run_spec(s1, 0));
    assert(run_spec(s0, 2) == run_spec(s1, 1));
    assert(run_spec(s1, 1) == run_spec(step_spec(s1, None).0, 0));
}

} // verus!
