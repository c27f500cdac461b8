use vstd::prelude::*;

pub mod aot;
pub mod ast;
pub mod chars;
pub mod bytecode;
pub mod codegen;
pub mod driver;
pub mod error;
pub mod lexer;
pub mod parser;
pub mod text;
pub mod typecheck;

verus! {

} // verus!
