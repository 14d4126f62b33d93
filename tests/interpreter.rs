use ijvm::opcodes::{
    BIPUSH, DUP, ERR, GOTO, HALT, IADD, IAND, IFEQ, IFLT, IF_ICMPEQ, IINC, ILOAD, IN, INVOKEVIRTUAL,
    IOR, IRETURN, ISTORE, ISUB, LDC_W, NOP, OUT, POP, SWAP, WIDE,
};
use ijvm::{do_op, step, HaltReason, Machine, OpError};

const TEST_STACK: usize = 1024;

/// Runs `text` to a halt, feeding `input` to IN, and returns the machine and what it printed.
fn run(text: Vec<u8>, pool: Vec<u8>, input: &[u8]) -> (Machine, Vec<u8>) {
    let mut m = Machine::new(text, pool, TEST_STACK);
    let mut out = Vec::new();
    let mut next = 0;
    let mut steps = 0;
    while !m.is_halted() {
        let byte = if m.wants_input() {
            let b = input.get(next).copied();
            next += 1;
            b
        } else {
            None
        };
        if let Some(c) = step(&mut m, byte) {
            out.push(c);
        }
        steps += 1;
        assert!(steps < 100_000, "program does not halt");
    }
    (m, out)
}

fn word(v: i32) -> Vec<u8> {
    v.to_be_bytes().to_vec()
}

#[test]
fn bipush_halt_leaves_sign_extended_value() {
    for (byte, expected) in [(0u8, 0i32), (1, 1), (127, 127), (0x80, -128), (0xFF, -1), (0xFE, -2)] {
        let (m, _) = run(vec![BIPUSH, byte, HALT], vec![], &[]);
        assert!(m.is_halted());
        assert_eq!(m.halt_reason(), HaltReason::HaltReached);
        assert_eq!(m.top(), expected);
        assert_eq!(m.sp(), 259);
    }
}

#[test]
fn iadd_and_isub_on_two_pushed_words() {
    let (m, _) = run(vec![BIPUSH, 7, BIPUSH, 3, IADD, HALT], vec![], &[]);
    assert_eq!(m.top(), 10);
    assert_eq!(m.sp(), 259);
    let (m, _) = run(vec![BIPUSH, 7, BIPUSH, 3, ISUB, HALT], vec![], &[]);
    assert_eq!(m.top(), 4);
    let (m, _) = run(vec![BIPUSH, 3, BIPUSH, 7, ISUB, HALT], vec![], &[]);
    assert_eq!(m.top(), -4);
}

#[test]
fn iadd_and_isub_wrap_around() {
    let mut pool = word(i32::MAX);
    pool.extend(word(1));
    pool.extend(word(i32::MIN));
    let (m, _) = run(vec![LDC_W, 0, 0, LDC_W, 0, 1, IADD, HALT], pool.clone(), &[]);
    assert_eq!(m.top(), i32::MIN);
    let (m, _) = run(vec![LDC_W, 0, 2, LDC_W, 0, 1, ISUB, HALT], pool, &[]);
    assert_eq!(m.top(), i32::MAX);
}

#[test]
fn iand_ior_swap_dup_pop() {
    let (m, _) = run(vec![BIPUSH, 12, BIPUSH, 10, IAND, HALT], vec![], &[]);
    assert_eq!(m.top(), 8);
    let (m, _) = run(vec![BIPUSH, 12, BIPUSH, 10, IOR, HALT], vec![], &[]);
    assert_eq!(m.top(), 14);
    let (m, _) = run(vec![BIPUSH, 1, BIPUSH, 2, SWAP, HALT], vec![], &[]);
    assert_eq!(m.top(), 1);
    assert_eq!(m.stack_at(m.sp() - 1), Some(2));
    let (m, _) = run(vec![BIPUSH, 5, DUP, IADD, HALT], vec![], &[]);
    assert_eq!(m.top(), 10);
    let (m, _) = run(vec![BIPUSH, 5, BIPUSH, 6, POP, HALT], vec![], &[]);
    assert_eq!(m.top(), 5);
    assert_eq!(m.sp(), 259);
}

#[test]
fn invoke_then_ireturn_restores_caller_frame() {
    let text = vec![
        BIPUSH, 0, // object reference
        BIPUSH, 5, // argument
        INVOKEVIRTUAL, 0, 0, // method at constant 0
        HALT, // 7
        0, 2, 0, 1, // 8: two arguments, one more local
        BIPUSH, 9, ISTORE, 2, // write the extra local
        ILOAD, 1, // the argument
        IRETURN,
    ];
    let (m, _) = run(text, word(8), &[]);
    assert_eq!(m.halt_reason(), HaltReason::HaltReached);
    assert_eq!(m.sp(), 260 - 2 + 1);
    assert_eq!(m.top(), 5);
    assert_eq!(m.lv(), 0);
    assert_eq!(m.pc(), 8);
}

#[test]
fn goto_lands_exactly_on_halt() {
    let (m, _) = run(vec![GOTO, 0, 5, NOP, NOP, HALT], vec![], &[]);
    assert_eq!(m.halt_reason(), HaltReason::HaltReached);
    assert_eq!(m.halt_msg(), "HALT reached.");
    assert_eq!(m.pc(), 6);
}

#[test]
fn goto_one_byte_off() {
    let (m, _) = run(vec![GOTO, 0, 6, NOP, NOP, HALT], vec![], &[]);
    assert_eq!(m.halt_reason(), HaltReason::EndOfText);
    assert_eq!(m.halt_msg(), "End of text reached.");
    let (m, _) = run(vec![GOTO, 0, 2, HALT], vec![], &[]);
    assert_eq!(m.halt_reason(), HaltReason::UnknownOpcode(2));
    assert_eq!(m.halt_msg(), "Error: op_code 0x2 unknown or not implemented.");
}

#[test]
fn goto_backwards() {
    // 0: BIPUSH 1; 2: IFEQ +6; 5: BIPUSH 0; 7: GOTO -5 (to 2); 10: HALT
    let text = vec![BIPUSH, 1, IFEQ, 0, 8, BIPUSH, 0, GOTO, 0xFF, 0xFB, HALT];
    let (m, _) = run(text, vec![], &[]);
    assert_eq!(m.halt_reason(), HaltReason::HaltReached);
    assert_eq!(m.sp(), 258);
}

#[test]
fn conditional_branches() {
    let (m, _) = run(vec![BIPUSH, 0, IFEQ, 0, 5, BIPUSH, 1, HALT], vec![], &[]);
    assert_eq!(m.sp(), 258);
    let (m, _) = run(vec![BIPUSH, 3, IFEQ, 0, 5, BIPUSH, 1, HALT], vec![], &[]);
    assert_eq!(m.top(), 1);
    let (m, _) = run(vec![BIPUSH, 0xFF, IFLT, 0, 5, BIPUSH, 1, HALT], vec![], &[]);
    assert_eq!(m.sp(), 258);
    let (m, _) = run(vec![BIPUSH, 0, IFLT, 0, 5, BIPUSH, 1, HALT], vec![], &[]);
    assert_eq!(m.top(), 1);
    let (m, _) = run(vec![BIPUSH, 4, BIPUSH, 4, IF_ICMPEQ, 0, 5, BIPUSH, 1, HALT], vec![], &[]);
    assert_eq!(m.sp(), 258);
    let (m, _) = run(vec![BIPUSH, 4, BIPUSH, 3, IF_ICMPEQ, 0, 5, BIPUSH, 1, HALT], vec![], &[]);
    assert_eq!(m.top(), 1);
}

#[test]
fn ldc_w_in_and_out_of_bounds() {
    let pool = vec![0x12, 0x34, 0x56, 0x78, 0xFF, 0xFF, 0xFF, 0xFE];
    let (m, _) = run(vec![LDC_W, 0, 0, HALT], pool.clone(), &[]);
    assert_eq!(m.top(), 0x12345678);
    let (m, _) = run(vec![LDC_W, 0, 1, HALT], pool.clone(), &[]);
    assert_eq!(m.top(), -2);
    let (m, _) = run(vec![LDC_W, 0, 2, HALT], pool.clone(), &[]);
    assert_eq!(m.halt_reason(), HaltReason::ConstantOutOfBounds);
    assert_eq!(m.sp(), 258);
    let (m, _) = run(vec![LDC_W, 0, 1, HALT], pool[..7].to_vec(), &[]);
    assert_eq!(m.halt_reason(), HaltReason::ConstantOutOfBounds);
}

#[test]
fn ldc_w_out_of_bounds_is_generic_error() {
    let mut m = Machine::new(vec![LDC_W, 0, 3, HALT], vec![0, 0, 0, 1], TEST_STACK);
    let r = step(&mut m, None);
    assert_eq!(r, None);
    let mut m2 = Machine::new(vec![0, 3, HALT], vec![0, 0, 0, 1], TEST_STACK);
    assert_eq!(do_op(LDC_W, &mut m2, None), Err(OpError::GenericError));
    assert!(m.is_halted());
    assert_eq!(
        m.halt_msg(),
        "Error: Attempting to get constant with index out of bounds."
    );
}

#[test]
fn in_newline_pushes_zero() {
    let (m, _) = run(vec![IN, HALT], vec![], b"\n");
    assert_eq!(m.top(), 0);
    assert_eq!(m.sp(), 259);
}

#[test]
fn in_other_byte_pushes_its_value() {
    for b in [b'A', 0u8, 9, 11, 200, 255] {
        let (m, _) = run(vec![IN, HALT], vec![], &[b]);
        assert_eq!(m.top(), b as i32);
    }
}

#[test]
fn in_without_input_is_io_error() {
    let mut m = Machine::new(vec![HALT], vec![], TEST_STACK);
    assert_eq!(do_op(IN, &mut m, None), Err(OpError::IoError));
    let (m, _) = run(vec![IN, HALT], vec![], &[]);
    assert_eq!(m.halt_reason(), HaltReason::ReadFailed);
}

#[test]
fn out_prints_ascii_and_rejects_others() {
    let (m, out) = run(vec![BIPUSH, b'h', OUT, BIPUSH, b'i', OUT, HALT], vec![], &[]);
    assert_eq!(out, b"hi".to_vec());
    assert_eq!(m.sp(), 258);
    let (m, out) = run(vec![BIPUSH, 0xFF, OUT, HALT], vec![], &[]);
    assert!(out.is_empty());
    assert_eq!(m.halt_reason(), HaltReason::OutputNotAscii);
    let mut m = Machine::new(vec![HALT], vec![], TEST_STACK);
    let mut m2 = Machine::new(vec![BIPUSH, 0x80, HALT], vec![], TEST_STACK);
    step(&mut m2, None);
    assert_eq!(do_op(OUT, &mut m2, None), Err(OpError::OutputRangeError));
    assert_eq!(do_op(NOP, &mut m, None), Ok(None));
}

#[test]
fn nops_between_instructions_change_nothing_else() {
    let (a, _) = run(vec![BIPUSH, 3, BIPUSH, 4, IADD, HALT], vec![], &[]);
    let (b, _) = run(vec![BIPUSH, 3, NOP, NOP, BIPUSH, 4, NOP, IADD, NOP, NOP, NOP, HALT], vec![], &[]);
    assert_eq!(a.sp(), b.sp());
    assert_eq!(a.top(), b.top());
    for addr in 0..300 {
        assert_eq!(a.stack_at(addr), b.stack_at(addr));
    }
    assert_ne!(a.pc(), b.pc());
}

#[test]
fn locals_iload_istore_iinc() {
    // Entry frame: local i lives at address i + 1.
    let (m, _) = run(vec![BIPUSH, 42, ISTORE, 3, ILOAD, 3, HALT], vec![], &[]);
    assert_eq!(m.top(), 42);
    assert_eq!(m.stack_at(4), Some(42));
    let (m, _) = run(vec![BIPUSH, 10, ISTORE, 0, IINC, 0, 0xFD, ILOAD, 0, HALT], vec![], &[]);
    assert_eq!(m.top(), 7);
    let mut pool = word(i32::MAX);
    pool.extend(word(0));
    let (m, _) = run(vec![LDC_W, 0, 0, ISTORE, 1, IINC, 1, 1, ILOAD, 1, HALT], pool, &[]);
    assert_eq!(m.top(), i32::MIN);
}

#[test]
fn err_and_halt_and_wide() {
    let (m, _) = run(vec![ERR, HALT], vec![], &[]);
    assert_eq!(m.halt_reason(), HaltReason::ErrReached);
    assert_eq!(m.halt_msg(), "ERR reached.");
    assert_eq!(m.pc(), 1);
    let (m, _) = run(vec![WIDE, BIPUSH, 1, HALT], vec![], &[]);
    assert_eq!(m.top(), 1);
}

#[test]
fn end_of_text_halts() {
    let (m, _) = run(vec![BIPUSH, 1, NOP], vec![], &[]);
    assert_eq!(m.halt_reason(), HaltReason::EndOfText);
    assert_eq!(m.top(), 1);
}

#[test]
fn unknown_opcode_is_generic_error() {
    let mut m = Machine::new(vec![HALT], vec![], TEST_STACK);
    assert_eq!(do_op(0x01, &mut m, None), Err(OpError::GenericError));
    assert_eq!(m.halt_reason(), HaltReason::UnknownOpcode(1));
    let (m, _) = run(vec![0x01, HALT], vec![], &[]);
    assert!(m.is_halted());
    assert_eq!(m.halt_msg(), "Error: op_code 0x1 unknown or not implemented.");
    let (m, _) = run(vec![0xAB, HALT], vec![], &[]);
    assert_eq!(m.halt_reason(), HaltReason::UnknownOpcode(0xAB));
    assert_eq!(m.halt_msg(), "Error: op_code 0xab unknown or not implemented.");
    let (m, _) = run(vec![0x20, HALT], vec![], &[]);
    assert_eq!(m.halt_msg(), "Error: op_code 0x20 unknown or not implemented.");
}

#[test]
fn ireturn_from_entry_frame_is_empty_stack_error() {
    let mut m = Machine::new(vec![HALT], vec![], TEST_STACK);
    assert_eq!(do_op(IRETURN, &mut m, None), Err(OpError::EmptyStackError));
    assert_eq!(m.halt_reason(), HaltReason::EmptyStack);
}

#[test]
fn halted_machine_does_not_step() {
    let (mut m, _) = run(vec![HALT, BIPUSH, 1], vec![], &[]);
    let sp = m.sp();
    assert_eq!(step(&mut m, None), None);
    assert_eq!(m.sp(), sp);
    assert_eq!(m.pc(), 1);
}

#[test]
fn fresh_machine_state() {
    let m = Machine::new(vec![HALT], vec![], TEST_STACK);
    assert_eq!(m.sp(), 258);
    assert_eq!(m.lv(), 0);
    assert_eq!(m.pc(), 0);
    assert_eq!(m.stack_at(0), Some(257));
    assert_eq!(m.stack_at(TEST_STACK), None);
    assert!(!m.is_halted());
    assert_eq!(m.halt_msg(), "Generic Error.");
}

#[test]
fn write_error_halts() {
    let mut m = Machine::new(vec![HALT], vec![], TEST_STACK);
    m.halt_on_write_error();
    assert!(m.is_halted());
    assert_eq!(m.halt_reason(), HaltReason::WriteFailed);
}
