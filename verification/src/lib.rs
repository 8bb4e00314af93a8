//! A line-per-instruction disassembler for RISC-V machine code.
//!
//! The crate frames a byte stream into instructions of 16, 32, 48, 64 or
//! more bits, resolves the 16-bit compressed and the 32-bit base encodings
//! into a mnemonic with operands, and renders one text line for each
//! instruction. I/O stays with the caller: bytes come in through an
//! [`Input`], lines go out as strings.

pub mod base;
pub mod bits;
pub mod compressed;
pub mod driver;
pub mod error;
pub mod frame;
pub mod input;
pub mod instruction;
pub mod layout;
pub mod line;
pub mod loader;
pub mod mnemonic;
pub mod operand;
pub mod text;

pub use crate::base::{decode_u32, dump_u32};
pub use crate::compressed::{decode_u16, dump_u16};
pub use crate::driver::{dump, dump0, fetch};
pub use crate::error::{DumpError, Malformed, ReadError};
pub use crate::frame::{classify, Category, Frame};
pub use crate::input::{ByteCursor, ByteOrder, Input};
pub use crate::loader::hex_bytes;
pub use crate::instruction::{dump_u192_reserved, dump_u48, dump_u64, dump_u80_u176, Instruction};
pub use crate::mnemonic::Mnemonic;
pub use crate::operand::{Decoded, Operand, Operands};
