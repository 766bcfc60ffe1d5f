//! The P-Code terms as the disassembler emits them.

pub mod block;
pub mod instruction;
pub mod operand;
pub mod program;
