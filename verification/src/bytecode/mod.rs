pub mod disasm;
pub mod format;
pub mod instr;

pub use disasm::disassemble;
pub use instr::{Bytecode, Function, Instr, OpCode};
