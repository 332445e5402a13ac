//! A disassembler for a small 16-bit instruction encoding.
//!
//! Each 16-bit word splits into a 6-bit opcode field and two 5-bit operand
//! fields; the opcode field selects a mnemonic from a fixed table and each
//! operand field selects an addressing mode and a register number. Rendering
//! turns a decoded instruction, together with one instruction of lookahead
//! for immediate operands, into one line of assembly text annotated with the
//! original source line.

pub mod decode;
pub mod driver;
pub mod parse;
pub mod render;
pub mod text;

pub use decode::{Inst, Op, Reg};
pub use driver::{convert_all, listing, listing_ok_check, run_pipeline};
pub use parse::convert;
pub use render::{to_asm, Pair};
