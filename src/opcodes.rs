use vstd::prelude::*;

verus! {

pub const BIPUSH: u8 = 0x10;
pub const DUP: u8 = 0x59;
pub const IADD: u8 = 0x60;
pub const IAND: u8 = 0x7E;
pub const IOR: u8 = 0xB0;
pub const ISUB: u8 = 0x64;
pub const NOP: u8 = 0x00;
pub const POP: u8 = 0x57;
pub const SWAP: u8 = 0x5F;
pub const ERR: u8 = 0xFE;
pub const HALT: u8 = 0xFF;
pub const IN: u8 = 0xFC;
pub const OUT: u8 = 0xFD;
pub const GOTO: u8 = 0xA7;
pub const IFEQ: u8 = 0x99;
pub const IFLT: u8 = 0x9B;
pub const IF_ICMPEQ: u8 = 0x9F;
pub const LDC_W: u8 = 0x13;
pub const ILOAD: u8 = 0x15;
pub const ISTORE: u8 = 0x36;
pub const IINC: u8 = 0x84;
pub const WIDE: u8 = 0xC4;
pub const INVOKEVIRTUAL: u8 = 0xB6;
pub const IRETURN: u8 = 0xAC;

/// The mnemonic of an opcode; a byte that is no opcode is most likely an operand.
pub open spec fn mnemonic(op: u8) -> &'static str {
    if op == BIPUSH { "BIPUSH" }
    else if op == DUP { "DUP" }
    else if op == IADD { "IADD" }
    else if op == IAND { "IAND" }
    else if op == IOR { "IOR" }
    else if op == ISUB { "ISUB" }
    else if op == NOP { "NOP" }
    else if op == POP { "POP" }
    else if op == SWAP { "SWAP" }
    else if op == ERR { "ERR" }
    else if op == HALT { "HALT" }
    else if op == IN { "IN" }
    else if op == OUT { "OUT" }
    else if op == GOTO { "GOTO" }
    else if op == IFEQ { "IFEQ" }
    else if op == IFLT { "IFLT" }
    else if op == IF_ICMPEQ { "IF_ICMPEQ" }
    else if op == LDC_W { "LDC_W" }
    else if op == ILOAD { "ILOAD" }
    else if op == ISTORE { "ISTORE" }
    else if op == IINC { "IINC" }
    else if op == WIDE { "WIDE" }
    else if op == INVOKEVIRTUAL { "INVOKEVIRTUAL" }
    else if op == IRETURN { "IRETURN" }
    else { "invalid, likely arg" }
}

/// Names the opcode `op_code`.
pub fn match_op_code(op_code: u8) -> (r: String)
    ensures
        r@ == mnemonic(op_code)@,
{
    let name: &str = match op_code {
        BIPUSH => "BIPUSH",
        DUP => "DUP",
        IADD => "IADD",
        IAND => "IAND",
        IOR => "IOR",
        ISUB => "ISUB",
        NOP => "NOP",
        POP => "POP",
        SWAP => "SWAP",
        ERR => "ERR",
        HALT => "HALT",
        IN => "IN",
        OUT => "OUT",
        GOTO => "GOTO",
        IFEQ => "IFEQ",
        IFLT => "IFLT",
        IF_ICMPEQ => "IF_ICMPEQ",
        LDC_W => "LDC_W",
        ILOAD => "ILOAD",
        ISTORE => "ISTORE",
        IINC => "IINC",
        WIDE => "WIDE",
        INVOKEVIRTUAL => "INVOKEVIRTUAL",
        IRETURN => "IRETURN",
        _ => "invalid, likely arg",
    };
    name.to_owned()
}

} // verus!
