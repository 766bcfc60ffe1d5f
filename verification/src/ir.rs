//! The intermediate representation that the lifter produces.

pub mod expression;
pub mod instruction;
pub mod program;
