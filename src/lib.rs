//! An interpreter for a small stack-oriented bytecode: a container holds a constant pool and
//! an instruction stream, which runs against one stack that holds operands, locals and the
//! links between call frames.
use vstd::prelude::*;

pub mod container;
pub mod error;
pub mod laws;
pub mod machine;
pub mod model;
pub mod opcodes;
pub mod stack;

pub use crate::container::{get_big_endian_word, parse_container, LoadError, Program};
pub use crate::error::OpError;
pub use crate::machine::{do_op, step, Machine, STACK_SIZE};
pub use crate::model::HaltReason;
pub use crate::opcodes::match_op_code;
pub use crate::stack::Stack;

verus! {

} // verus!
