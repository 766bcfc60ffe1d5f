//! Registers and side-effect-free computations of the intermediate
//! representation.

use crate::bitvector::{Bitvector, ByteSize};
use vstd::prelude::*;

verus! {

/// A register or a temporary of the intermediate representation.
#[derive(Debug, PartialEq, Eq, Hash)]
pub struct IrVariable {
    /// The name of the register.
    pub name: String,
    /// The size of the register in bytes.
    pub size: ByteSize,
    /// Whether the register is a temporary that the disassembler made up.
    pub is_temp: bool,
}

/// The mathematical value of an [`IrVariable`].
pub ghost struct IrVariableView {
    pub name: Seq<char>,
    pub size: ByteSize,
    pub is_temp: bool,
}

impl DeepView for IrVariable {
    type V = IrVariableView;

    open spec fn deep_view(&self) -> IrVariableView {
        IrVariableView { name: self.name@, size: self.size, is_temp: self.is_temp }
    }
}

impl Clone for IrVariable {
    fn clone(&self) -> (r: IrVariable)
        ensures
            r == *self,
    {
        IrVariable { name: self.name.clone(), size: self.size, is_temp: self.is_temp }
    }
}

/// The operations that take two operands.
#[derive(Debug, Clone, Copy, PartialEq, Eq, Hash, Structural)]
pub enum BinOpType {
    Piece,
    IntEqual,
    IntNotEqual,
    IntLess,
    IntSLess,
    IntLessEqual,
    IntSLessEqual,
    IntAdd,
    IntSub,
    IntCarry,
    IntSCarry,
    IntSBorrow,
    IntXOr,
    IntAnd,
    IntOr,
    IntLeft,
    IntRight,
    IntSRight,
    IntMult,
    IntDiv,
    IntRem,
    IntSDiv,
    IntSRem,
    BoolXOr,
    BoolAnd,
    BoolOr,
    FloatEqual,
    FloatNotEqual,
    FloatLess,
    FloatLessEqual,
    FloatAdd,
    FloatSub,
    FloatMult,
    FloatDiv,
}

/// The operations that take one operand and keep its size.
#[derive(Debug, Clone, Copy, PartialEq, Eq, Hash, Structural)]
pub enum UnOpType {
    IntNegate,
    Int2Comp,
    BoolNegate,
    FloatNegate,
    FloatAbs,
    FloatSqrt,
    FloatCeil,
    FloatFloor,
    FloatRound,
    FloatNaN,
}

/// The operations that take one operand and produce a value of a size of
/// their own.
#[derive(Debug, Clone, Copy, PartialEq, Eq, Hash, Structural)]
pub enum CastOpType {
    IntZExt,
    IntSExt,
    Int2Float,
    Float2Float,
    Trunc,
    PopCount,
}

/// A side-effect-free computation over registers and constants.
#[derive(Debug, PartialEq, Eq, Hash)]
pub enum IrExpression {
    /// The value of a register.
    Var(IrVariable),
    /// A constant.
    Const(Bitvector),
    /// An operation on two operands.
    BinOp { op: BinOpType, lhs: Box<IrExpression>, rhs: Box<IrExpression> },
    /// An operation on one operand.
    UnOp { op: UnOpType, arg: Box<IrExpression> },
    /// A conversion of the operand to a value of `size` bytes.
    Cast { op: CastOpType, size: ByteSize, arg: Box<IrExpression> },
    /// The `size` bytes of the operand that start at byte `low_byte`,
    /// counted from the least significant byte.
    Subpiece { low_byte: ByteSize, size: ByteSize, arg: Box<IrExpression> },
}

/// The mathematical value of an [`IrExpression`].
pub ghost enum IrExpressionView {
    Var(IrVariableView),
    Const(Seq<u8>),
    BinOp { op: BinOpType, lhs: Box<IrExpressionView>, rhs: Box<IrExpressionView> },
    UnOp { op: UnOpType, arg: Box<IrExpressionView> },
    Cast { op: CastOpType, size: ByteSize, arg: Box<IrExpressionView> },
    Subpiece { low_byte: ByteSize, size: ByteSize, arg: Box<IrExpressionView> },
}

/// The value of an expression, node by node.
pub open spec fn expression_view(e: IrExpression) -> IrExpressionView
    decreases e,
{
    match e {
        IrExpression::Var(v) => IrExpressionView::Var(v.deep_view()),
        IrExpression::Const(c) => IrExpressionView::Const(c.deep_view()),
        IrExpression::BinOp { op, lhs, rhs } => IrExpressionView::BinOp {
            op,
            lhs: Box::new(expression_view(*lhs)),
            rhs: Box::new(expression_view(*rhs)),
        },
        IrExpression::UnOp { op, arg } => IrExpressionView::UnOp {
            op,
            arg: Box::new(expression_view(*arg)),
        },
        IrExpression::Cast { op, size, arg } => IrExpressionView::Cast {
            op,
            size,
            arg: Box::new(expression_view(*arg)),
        },
        IrExpression::Subpiece { low_byte, size, arg } => IrExpressionView::Subpiece {
            low_byte,
            size,
            arg: Box::new(expression_view(*arg)),
        },
    }
}

impl DeepView for IrExpression {
    type V = IrExpressionView;

    open spec fn deep_view(&self) -> IrExpressionView {
        expression_view(*self)
    }
}

impl Clone for IrExpression {
    fn clone(&self) -> (r: IrExpression)
        ensures
            r.deep_view() == self.deep_view(),
        decreases self,
    {
        match self {
            IrExpression::Var(v) => IrExpression::Var(v.clone()),
            IrExpression::Const(c) => IrExpression::Const(c.clone()),
            IrExpression::BinOp { op, lhs, rhs } => IrExpression::BinOp {
                op: *op,
                lhs: Box::new((**lhs).clone()),
                rhs: Box::new((**rhs).clone()),
            },
            IrExpression::UnOp { op, arg } => IrExpression::UnOp {
                op: *op,
                arg: Box::new((**arg).clone()),
            },
            IrExpression::Cast { op, size, arg } => IrExpression::Cast {
                op: *op,
                size: *size,
                arg: Box::new((**arg).clone()),
            },
            IrExpression::Subpiece { low_byte, size, arg } => IrExpression::Subpiece {
                low_byte: *low_byte,
                size: *size,
                arg: Box::new((**arg).clone()),
            },
        }
    }
}

} // verus!
