//! Translates English-like assembly sentences ("add 1 to eax") into
//! Intel-syntax x86 assembly text ("add eax, 1"): a lexer, a sentence
//! parser and a code generator, one source line at a time.

pub mod codegen;
pub mod data;
pub mod error;
pub mod memory;
pub mod parser;
pub mod text;
pub mod tokenizer;

pub use codegen::{codegen, compile};
pub use data::{Data, DataSet};
pub use error::AsmError;
pub use memory::Memory;
pub use parser::Code;
pub use tokenizer::{Loc, Tonkenizer};
