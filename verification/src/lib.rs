//! Lifting of a disassembler's P-Code terms into an architecture-neutral
//! intermediate representation, together with the normalization passes that
//! have to run before and after the structural conversion.
//!
//! A project is handled in this order:
//!
//! 1. [`pcode::program::Project::normalize`] turns reads of memory at a
//!    fixed address that hide in operands into loads of their own, and
//!    takes the code from functions that have no entry block. It hands
//!    back a warning for each such function.
//! 2. [`pcode::program::Project::into_ir_project`] converts the project.
//!    Input that violates the format is an error, never a guess. The
//!    entry block of every function comes first in what is returned, and
//!    every access to a sub-register is an access to a byte range of its
//!    base register.
//!
//! The modules [`pcode`] and [`ir`] hold the two representations,
//! [`normalize`], [`subregister`] and [`canonical`] the passes, and [`laws`]
//! what holds of them whatever the input.

pub mod bitvector;
pub mod canonical;
pub mod error;
pub mod hex;
pub mod ir;
pub mod laws;
pub mod log;
pub mod normalize;
pub mod pcode;
pub mod subregister;
pub mod text;
pub mod tid;
