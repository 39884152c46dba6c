//! An assembler and virtual machine pair for a fixed-width, 64-bit,
//! register-based instruction set.
//!
//! The assembler side turns source text into a serializable executable:
//! the lexer and parser read the dialect, the validator checks statements
//! and groups them into sections, constants and label offsets resolve
//! names, and the layout selector and bit codec pack each instruction into
//! a 64-bit word. The machine side inverts the codec and interprets one
//! instruction at a time over a linear memory, a 64-word register file,
//! four arithmetic flags, and memory-mapped input and output.

pub mod ast;
pub mod bytestr;
pub mod const_table;
pub mod decode;
pub mod diag;
pub mod executable;
pub mod execute;
pub mod flags;
pub mod instr;
pub mod ir;
pub mod label_offsets;
pub mod layout;
pub mod lexer;
pub mod machine;
pub mod memory;
pub mod operands;
pub mod parser;
pub mod registers;
pub mod scanner;
pub mod span;
pub mod stdio;
pub mod token;
pub mod validate;
pub mod write_memory;
