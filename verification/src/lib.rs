//! An assembler front end for the RV32I base integer instructions.
//!
//! Two engines share one grammar of immediate literals:
//!
//! - the encoder, [`decode_asm_line`], turns one line of assembly into one
//!   32-bit instruction word;
//! - the scanner, [`Scanner`], turns a source text into tokens.
//!
//! Both are functions of their input alone. What each computes is stated by a
//! function on sequences of characters, `encode::encode_line` and
//! `scanner::scan_text`, and is proved of the code.

pub mod encode;
pub mod error;
pub mod fields;
pub mod imm;
pub mod inst;
pub mod pattern;
pub mod reg;
pub mod scanner;
pub mod text;

pub use crate::encode::{decode_asm_line, set_imm, set_mem, set_mem_parts, set_reg};
pub use crate::error::AsmError;
pub use crate::imm::imm_string_to_i32;
pub use crate::inst::{AsmArgs, Instruction, InstructionType};
pub use crate::reg::{RegFunc, Register};
pub use crate::scanner::token::{Token, TokenType};
pub use crate::scanner::Scanner;
