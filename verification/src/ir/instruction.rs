//! Instructions, basic blocks and functions of the intermediate
//! representation.

use crate::ir::expression::{IrExpression, IrExpressionView, IrVariable, IrVariableView};
use crate::tid::{Term, TermView, Tid, TidView};
use vstd::prelude::*;

verus! {

/// An instruction that has a side effect on a register or on memory.
#[derive(Debug, PartialEq, Eq, Hash, Clone)]
pub enum IrDef {
    /// Reads memory at `address` into `var`.
    Load { var: IrVariable, address: IrExpression },
    /// Writes `value` to memory at `address`.
    Store { address: IrExpression, value: IrExpression },
    /// Writes `value` to `var`.
    Assign { var: IrVariable, value: IrExpression },
}

/// The mathematical value of an [`IrDef`].
pub ghost enum IrDefView {
    Load { var: IrVariableView, address: IrExpressionView },
    Store { address: IrExpressionView, value: IrExpressionView },
    Assign { var: IrVariableView, value: IrExpressionView },
}

impl DeepView for IrDef {
    type V = IrDefView;

    open spec fn deep_view(&self) -> IrDefView {
        match self {
            IrDef::Load { var, address } => IrDefView::Load {
                var: var.deep_view(),
                address: address.deep_view(),
            },
            IrDef::Store { address, value } => IrDefView::Store {
                address: address.deep_view(),
                value: value.deep_view(),
            },
            IrDef::Assign { var, value } => IrDefView::Assign {
                var: var.deep_view(),
                value: value.deep_view(),
            },
        }
    }
}

/// An instruction that transfers control.
#[derive(Debug, PartialEq, Eq, Hash, Clone)]
pub enum IrJmp {
    /// An unconditional jump to a block.
    Branch(Tid),
    /// A jump to the address that the expression computes.
    BranchInd(IrExpression),
    /// A jump to a block that is taken if the condition holds.
    CBranch { target: Tid, condition: IrExpression },
    /// A call of a function, with the block that it returns to, if any.
    Call { target: Tid, return_: Option<Tid> },
    /// A call of the address that the expression computes.
    CallInd { target: IrExpression, return_: Option<Tid> },
    /// A return to the address that the expression computes.
    Return(IrExpression),
    /// An effect that the architecture defines and that only a
    /// description stands for.
    CallOther { description: String, return_: Option<Tid> },
}

/// The mathematical value of an [`IrJmp`].
pub ghost enum IrJmpView {
    Branch(TidView),
    BranchInd(IrExpressionView),
    CBranch { target: TidView, condition: IrExpressionView },
    Call { target: TidView, return_: Option<TidView> },
    CallInd { target: IrExpressionView, return_: Option<TidView> },
    Return(IrExpressionView),
    CallOther { description: Seq<char>, return_: Option<TidView> },
}

impl DeepView for IrJmp {
    type V = IrJmpView;

    open spec fn deep_view(&self) -> IrJmpView {
        match self {
            IrJmp::Branch(target) => IrJmpView::Branch(target.deep_view()),
            IrJmp::BranchInd(target) => IrJmpView::BranchInd(target.deep_view()),
            IrJmp::CBranch { target, condition } => IrJmpView::CBranch {
                target: target.deep_view(),
                condition: condition.deep_view(),
            },
            IrJmp::Call { target, return_ } => IrJmpView::Call {
                target: target.deep_view(),
                return_: return_.deep_view(),
            },
            IrJmp::CallInd { target, return_ } => IrJmpView::CallInd {
                target: target.deep_view(),
                return_: return_.deep_view(),
            },
            IrJmp::Return(target) => IrJmpView::Return(target.deep_view()),
            IrJmp::CallOther { description, return_ } => IrJmpView::CallOther {
                description: description@,
                return_: return_.deep_view(),
            },
        }
    }
}

/// A basic block: instructions that run in order, and the jumps of which
/// at most one is taken after them.
#[derive(Debug, PartialEq, Eq, Hash, Clone)]
pub struct IrBlk {
    /// The instructions of the block in the order in which they run.
    pub defs: Vec<Term<IrDef>>,
    /// The jumps at the end of the block.
    pub jmps: Vec<Term<IrJmp>>,
    /// Addresses that an indirect jump of the block may lead to.
    pub indirect_jmp_targets: Vec<String>,
}

/// The mathematical value of an [`IrBlk`].
pub ghost struct IrBlkView {
    pub defs: Seq<TermView<IrDefView>>,
    pub jmps: Seq<TermView<IrJmpView>>,
    pub indirect_jmp_targets: Seq<Seq<char>>,
}

impl DeepView for IrBlk {
    type V = IrBlkView;

    open spec fn deep_view(&self) -> IrBlkView {
        IrBlkView {
            defs: self.defs.deep_view(),
            jmps: self.jmps.deep_view(),
            indirect_jmp_targets: self.indirect_jmp_targets.deep_view(),
        }
    }
}

/// A function: its name and its basic blocks. The first block is the one
/// that the function is entered at.
#[derive(Debug, PartialEq, Eq, Hash, Clone)]
pub struct IrSub {
    /// The name of the function.
    pub name: String,
    /// The basic blocks of the function.
    pub blocks: Vec<Term<IrBlk>>,
}

/// The mathematical value of an [`IrSub`].
pub ghost struct IrSubView {
    pub name: Seq<char>,
    pub blocks: Seq<TermView<IrBlkView>>,
}

impl DeepView for IrSub {
    type V = IrSubView;

    open spec fn deep_view(&self) -> IrSubView {
        IrSubView { name: self.name@, blocks: self.blocks.deep_view() }
    }
}

/// The function has no code, or its first block lies at the address of
/// the function.
pub open spec fn starts_at_entry(sub: TermView<IrSubView>) -> bool {
    sub.term.blocks.len() == 0 || sub.term.blocks[0].tid.address == sub.tid.address
}

} // verus!
