//! P-Code instructions: definitions and jumps, and the basic blocks and
//! functions that hold them.

use crate::error::{outcome, LiftError};
use crate::ir::expression::{IrExpression, IrExpressionView};
use crate::ir::instruction::{IrDef, IrDefView, IrJmp, IrJmpView};
use crate::pcode::operand::{
    clone_operand, clone_text, operand_expression, operand_register, operand_to_expression,
    operand_to_register, Expression, ExpressionType, ExpressionView, Variable, VariableView,
};
use crate::tid::{Tid, TidView};
use vstd::prelude::*;

verus! {

/// An assignment: the result of an operation is written to a varnode.
#[derive(Debug, PartialEq, Eq, Hash)]
pub struct Def {
    /// The varnode that is written. Operations that only have a side
    /// effect, such as a store, have none.
    pub lhs: Option<Variable>,
    /// The operation whose result is written.
    pub rhs: Expression,
}

/// The mathematical value of a [`Def`].
pub ghost struct DefView {
    pub lhs: Option<VariableView>,
    pub rhs: ExpressionView,
}

impl DeepView for Def {
    type V = DefView;

    open spec fn deep_view(&self) -> DefView {
        DefView { lhs: self.lhs.deep_view(), rhs: self.rhs.deep_view() }
    }
}

impl Clone for Def {
    fn clone(&self) -> (r: Def)
        ensures
            r == *self,
    {
        Def { lhs: clone_operand(&self.lhs), rhs: self.rhs.clone() }
    }
}

/// The number of bytes that an operand which has to be present denotes.
pub open spec fn operand_byte_count(operand: Option<VariableView>) -> Result<
    crate::bitvector::ByteSize,
    LiftError,
> {
    match operand {
        Some(var) => var.as_byte_count(),
        None => Err(LiftError::MissingOperand),
    }
}

impl DefView {
    /// The load of the register in `lhs` from the address in slot 1.
    pub open spec fn lifted_load(self) -> Result<IrDefView, LiftError> {
        match operand_register(self.lhs) {
            Err(e) => Err(e),
            Ok(var) => match operand_expression(self.rhs.input1) {
                Err(e) => Err(e),
                Ok(address) => Ok(IrDefView::Load { var, address }),
            },
        }
    }

    /// The store of the value in slot 2 to the address in slot 1.
    pub open spec fn lifted_store(self) -> Result<IrDefView, LiftError> {
        match operand_expression(self.rhs.input1) {
            Err(e) => Err(e),
            Ok(address) => match operand_expression(self.rhs.input2) {
                Err(e) => Err(e),
                Ok(value) => Ok(IrDefView::Store { address, value }),
            },
        }
    }

    /// The assignment of a byte range of slot 0 to the register in `lhs`:
    /// the range starts at the byte that slot 1 counts and is as wide as
    /// the register.
    pub open spec fn lifted_subpiece(self) -> Result<IrDefView, LiftError> {
        match operand_register(self.lhs) {
            Err(e) => Err(e),
            Ok(var) => match operand_byte_count(self.rhs.input1) {
                Err(e) => Err(e),
                Ok(low_byte) => match operand_expression(self.rhs.input0) {
                    Err(e) => Err(e),
                    Ok(arg) => Ok(
                        IrDefView::Assign {
                            var,
                            value: IrExpressionView::Subpiece {
                                low_byte,
                                size: var.size,
                                arg: Box::new(arg),
                            },
                        },
                    ),
                },
            },
        }
    }

    /// The assignment of a conversion of slot 0 to the register in `lhs`.
    /// The conversion produces the size of the register.
    pub open spec fn lifted_cast(self) -> Result<IrDefView, LiftError>
        recommends
            self.rhs.mnemonic.cast_op() is Some,
    {
        match operand_register(self.lhs) {
            Err(e) => Err(e),
            Ok(var) => match operand_expression(self.rhs.input0) {
                Err(e) => Err(e),
                Ok(arg) => Ok(
                    IrDefView::Assign {
                        var,
                        value: IrExpressionView::Cast {
                            op: self.rhs.mnemonic.cast_op()->Some_0,
                            size: var.size,
                            arg: Box::new(arg),
                        },
                    },
                ),
            },
        }
    }

    /// The assignment of a plain computation. Where the target stands
    /// for memory at a fixed address, the result is stored there instead.
    pub open spec fn lifted_computation(self) -> Result<IrDefView, LiftError> {
        match self.lhs {
            None => Err(LiftError::MissingOperand),
            Some(target) => if target.address is Some {
                match target.as_constant() {
                    Err(e) => Err(e),
                    Ok(address) => match self.rhs.as_expression() {
                        Err(e) => Err(e),
                        Ok(value) => Ok(
                            IrDefView::Store { address: IrExpressionView::Const(address), value },
                        ),
                    },
                }
            } else {
                match target.as_register() {
                    Err(e) => Err(e),
                    Ok(var) => match self.rhs.as_expression() {
                        Err(e) => Err(e),
                        Ok(value) => Ok(IrDefView::Assign { var, value }),
                    },
                }
            },
        }
    }

    /// The instruction of the intermediate representation that the
    /// definition stands for, by its mnemonic.
    pub open spec fn lifted(self) -> Result<IrDefView, LiftError> {
        if self.rhs.mnemonic == ExpressionType::LOAD {
            self.lifted_load()
        } else if self.rhs.mnemonic == ExpressionType::STORE {
            self.lifted_store()
        } else if self.rhs.mnemonic == ExpressionType::SUBPIECE {
            self.lifted_subpiece()
        } else if self.rhs.mnemonic.cast_op() is Some {
            self.lifted_cast()
        } else {
            self.lifted_computation()
        }
    }
}

impl Def {
    fn lift_load(&self) -> (r: Result<IrDef, LiftError>)
        ensures
            outcome(r) == self.deep_view().lifted_load(),
    {
        let var = match operand_to_register(&self.lhs) {
            Ok(var) => var,
            Err(e) => {
                return Err(e);
            },
        };
        match operand_to_expression(&self.rhs.input1) {
            Ok(address) => Ok(IrDef::Load { var, address }),
            Err(e) => Err(e),
        }
    }

    fn lift_store(&self) -> (r: Result<IrDef, LiftError>)
        ensures
            outcome(r) == self.deep_view().lifted_store(),
    {
        let address = match operand_to_expression(&self.rhs.input1) {
            Ok(address) => address,
            Err(e) => {
                return Err(e);
            },
        };
        match operand_to_expression(&self.rhs.input2) {
            Ok(value) => Ok(IrDef::Store { address, value }),
            Err(e) => Err(e),
        }
    }

    fn lift_subpiece(&self) -> (r: Result<IrDef, LiftError>)
        ensures
            outcome(r) == self.deep_view().lifted_subpiece(),
    {
        let var = match operand_to_register(&self.lhs) {
            Ok(var) => var,
            Err(e) => {
                return Err(e);
            },
        };
        let low_byte = match &self.rhs.input1 {
            Some(count) => match count.parse_to_bytesize() {
                Ok(low_byte) => low_byte,
                Err(e) => {
                    return Err(e);
                },
            },
            None => {
                return Err(LiftError::MissingOperand);
            },
        };
        match operand_to_expression(&self.rhs.input0) {
            Ok(arg) => {
                let size = var.size;
                Ok(
                    IrDef::Assign {
                        var,
                        value: IrExpression::Subpiece { low_byte, size, arg: Box::new(arg) },
                    },
                )
            },
            Err(e) => Err(e),
        }
    }

    fn lift_cast(&self, op: crate::ir::expression::CastOpType) -> (r: Result<IrDef, LiftError>)
        requires
            self.rhs.mnemonic.cast_op() == Some(op),
        ensures
            outcome(r) == self.deep_view().lifted_cast(),
    {
        let var = match operand_to_register(&self.lhs) {
            Ok(var) => var,
            Err(e) => {
                return Err(e);
            },
        };
        match operand_to_expression(&self.rhs.input0) {
            Ok(arg) => {
                let size = var.size;
                Ok(IrDef::Assign { var, value: IrExpression::Cast { op, size, arg: Box::new(arg) } })
            },
            Err(e) => Err(e),
        }
    }

    fn lift_computation(&self) -> (r: Result<IrDef, LiftError>)
        ensures
            outcome(r) == self.deep_view().lifted_computation(),
    {
        let target = match &self.lhs {
            Some(target) => target,
            None => {
                return Err(LiftError::MissingOperand);
            },
        };
        if target.address.is_some() {
            let address = match target.parse_to_bitvector() {
                Ok(address) => address,
                Err(e) => {
                    return Err(e);
                },
            };
            match self.rhs.to_ir_expression() {
                Ok(value) => Ok(IrDef::Store { address: IrExpression::Const(address), value }),
                Err(e) => Err(e),
            }
        } else {
            let var = match target.to_ir_variable() {
                Ok(var) => var,
                Err(e) => {
                    return Err(e);
                },
            };
            match self.rhs.to_ir_expression() {
                Ok(value) => Ok(IrDef::Assign { var, value }),
                Err(e) => Err(e),
            }
        }
    }

    /// Converts the definition into the instruction of the intermediate
    /// representation that it stands for.
    pub fn to_ir_def(&self) -> (r: Result<IrDef, LiftError>)
        ensures
            outcome(r) == self.deep_view().lifted(),
    {
        if self.rhs.mnemonic == ExpressionType::LOAD {
            self.lift_load()
        } else if self.rhs.mnemonic == ExpressionType::STORE {
            self.lift_store()
        } else if self.rhs.mnemonic == ExpressionType::SUBPIECE {
            self.lift_subpiece()
        } else if let Some(op) = self.rhs.mnemonic.to_cast_op() {
            self.lift_cast(op)
        } else {
            self.lift_computation()
        }
    }
}

/// The target of a jump: a term that is known, or a varnode that holds
/// the address at run time.
#[derive(Debug, PartialEq, Eq, Hash)]
pub enum Label {
    /// The identifier of the block or function that is jumped to.
    Direct(Tid),
    /// The varnode that holds the address that is jumped to.
    Indirect(Variable),
}

/// The mathematical value of a [`Label`].
pub ghost enum LabelView {
    Direct(TidView),
    Indirect(VariableView),
}

impl DeepView for Label {
    type V = LabelView;

    open spec fn deep_view(&self) -> LabelView {
        match self {
            Label::Direct(tid) => LabelView::Direct(tid.deep_view()),
            Label::Indirect(var) => LabelView::Indirect(var.deep_view()),
        }
    }
}

impl Clone for Label {
    fn clone(&self) -> (r: Label)
        ensures
            r == *self,
    {
        match self {
            Label::Direct(tid) => Label::Direct(tid.clone()),
            Label::Indirect(var) => Label::Indirect(var.clone()),
        }
    }
}

/// A copy of an optional label.
pub fn clone_label(label: &Option<Label>) -> (r: Option<Label>)
    ensures
        r == *label,
{
    match label {
        Some(l) => Some(l.clone()),
        None => None,
    }
}

/// What a call jump knows of the call.
#[derive(Debug, PartialEq, Eq, Hash)]
pub struct Call {
    /// The target of the call. Only a `CALLOTHER` has none.
    pub target: Option<Label>,
    /// Where the call returns to, if it is expected to return.
    pub return_: Option<Label>,
    /// A description of the effect, for a `CALLOTHER`.
    pub call_string: Option<String>,
}

/// The mathematical value of a [`Call`].
pub ghost struct CallView {
    pub target: Option<LabelView>,
    pub return_: Option<LabelView>,
    pub call_string: Option<Seq<char>>,
}

impl DeepView for Call {
    type V = CallView;

    open spec fn deep_view(&self) -> CallView {
        CallView {
            target: self.target.deep_view(),
            return_: self.return_.deep_view(),
            call_string: self.call_string.deep_view(),
        }
    }
}

impl Clone for Call {
    fn clone(&self) -> (r: Call)
        ensures
            r == *self,
    {
        Call {
            target: clone_label(&self.target),
            return_: clone_label(&self.return_),
            call_string: clone_text(&self.call_string),
        }
    }
}

/// The mnemonic of a jump.
#[derive(Debug, Clone, Copy, PartialEq, Eq, Hash, Structural)]
pub enum JmpType {
    BRANCH,
    CBRANCH,
    BRANCHIND,
    CALL,
    CALLIND,
    CALLOTHER,
    RETURN,
}

/// A jump. Which of the fields have to be present depends on the
/// mnemonic.
#[derive(Debug, PartialEq, Eq, Hash, Clone)]
pub struct Jmp {
    /// The mnemonic of the jump.
    pub mnemonic: JmpType,
    /// The target of a jump that stays within its function.
    pub goto: Option<Label>,
    /// The call, where the jump is one.
    pub call: Option<Call>,
    /// The varnode that has to hold `true` for a conditional jump to be
    /// taken.
    pub condition: Option<Variable>,
    /// Addresses that an indirect jump may lead to.
    pub target_hints: Option<Vec<String>>,
}

/// The mathematical value of a [`Jmp`].
pub ghost struct JmpView {
    pub mnemonic: JmpType,
    pub goto: Option<LabelView>,
    pub call: Option<CallView>,
    pub condition: Option<VariableView>,
    pub target_hints: Option<Seq<Seq<char>>>,
}

impl DeepView for Jmp {
    type V = JmpView;

    open spec fn deep_view(&self) -> JmpView {
        JmpView {
            mnemonic: self.mnemonic,
            goto: self.goto.deep_view(),
            call: self.call.deep_view(),
            condition: self.condition.deep_view(),
            target_hints: self.target_hints.deep_view(),
        }
    }
}

/// The term that a label which has to be present and direct names.
/// `missing` is the error for a label that is absent.
pub open spec fn direct_target(label: Option<LabelView>, missing: LiftError) -> Result<
    TidView,
    LiftError,
> {
    match label {
        None => Err(missing),
        Some(LabelView::Direct(tid)) => Ok(tid),
        Some(LabelView::Indirect(_)) => Err(LiftError::LabelShape),
    }
}

/// The expression that computes the target of a label which has to be
/// present and indirect. `missing` is the error for a label that is
/// absent.
pub open spec fn indirect_target(label: Option<LabelView>, missing: LiftError) -> Result<
    IrExpressionView,
    LiftError,
> {
    match label {
        None => Err(missing),
        Some(LabelView::Direct(_)) => Err(LiftError::LabelShape),
        Some(LabelView::Indirect(var)) => var.as_expression(),
    }
}

/// The term that a call returns to: none where the label is absent, and
/// the term of a direct label.
pub open spec fn return_target(label: Option<LabelView>) -> Result<Option<TidView>, LiftError> {
    match label {
        None => Ok(None),
        Some(LabelView::Direct(tid)) => Ok(Some(tid)),
        Some(LabelView::Indirect(_)) => Err(LiftError::LabelShape),
    }
}

impl CallView {
    /// The direct call that the descriptor stands for.
    pub open spec fn lifted_direct(self) -> Result<IrJmpView, LiftError> {
        match direct_target(self.target, LiftError::MissingCallField) {
            Err(e) => Err(e),
            Ok(target) => match return_target(self.return_) {
                Err(e) => Err(e),
                Ok(return_) => Ok(IrJmpView::Call { target, return_ }),
            },
        }
    }

    /// The indirect call that the descriptor stands for.
    pub open spec fn lifted_indirect(self) -> Result<IrJmpView, LiftError> {
        match indirect_target(self.target, LiftError::MissingCallField) {
            Err(e) => Err(e),
            Ok(target) => match return_target(self.return_) {
                Err(e) => Err(e),
                Ok(return_) => Ok(IrJmpView::CallInd { target, return_ }),
            },
        }
    }

    /// The described effect that the descriptor stands for.
    pub open spec fn lifted_other(self) -> Result<IrJmpView, LiftError> {
        match self.call_string {
            None => Err(LiftError::MissingCallField),
            Some(description) => match return_target(self.return_) {
                Err(e) => Err(e),
                Ok(return_) => Ok(IrJmpView::CallOther { description, return_ }),
            },
        }
    }
}

impl JmpView {
    /// The conditional branch that the jump stands for.
    pub open spec fn lifted_cbranch(self) -> Result<IrJmpView, LiftError> {
        match direct_target(self.goto, LiftError::MissingLabel) {
            Err(e) => Err(e),
            Ok(target) => match self.condition {
                None => Err(LiftError::MissingCondition),
                Some(var) => match var.as_expression() {
                    Err(e) => Err(e),
                    Ok(condition) => Ok(IrJmpView::CBranch { target, condition }),
                },
            },
        }
    }

    /// The jump of the intermediate representation that the jump stands
    /// for, by its mnemonic.
    pub open spec fn lifted(self) -> Result<IrJmpView, LiftError> {
        match self.mnemonic {
            JmpType::BRANCH => match direct_target(self.goto, LiftError::MissingLabel) {
                Err(e) => Err(e),
                Ok(target) => Ok(IrJmpView::Branch(target)),
            },
            JmpType::CBRANCH => self.lifted_cbranch(),
            JmpType::BRANCHIND => match indirect_target(self.goto, LiftError::MissingLabel) {
                Err(e) => Err(e),
                Ok(target) => Ok(IrJmpView::BranchInd(target)),
            },
            JmpType::CALL => match self.call {
                None => Err(LiftError::MissingCall),
                Some(call) => call.lifted_direct(),
            },
            JmpType::CALLIND => match self.call {
                None => Err(LiftError::MissingCall),
                Some(call) => call.lifted_indirect(),
            },
            JmpType::CALLOTHER => match self.call {
                None => Err(LiftError::MissingCall),
                Some(call) => call.lifted_other(),
            },
            JmpType::RETURN => match indirect_target(self.goto, LiftError::MissingLabel) {
                Err(e) => Err(e),
                Ok(target) => Ok(IrJmpView::Return(target)),
            },
        }
    }
}

/// The term that a label which has to be present and direct names.
pub fn to_direct_target(label: &Option<Label>, missing: LiftError) -> (r: Result<Tid, LiftError>)
    ensures
        outcome(r) == direct_target(label.deep_view(), missing),
{
    match label {
        None => Err(missing),
        Some(Label::Direct(tid)) => Ok(tid.clone()),
        Some(Label::Indirect(_)) => Err(LiftError::LabelShape),
    }
}

/// The expression that computes the target of a label which has to be
/// present and indirect.
pub fn to_indirect_target(label: &Option<Label>, missing: LiftError) -> (r: Result<
    IrExpression,
    LiftError,
>)
    ensures
        outcome(r) == indirect_target(label.deep_view(), missing),
{
    match label {
        None => Err(missing),
        Some(Label::Direct(_)) => Err(LiftError::LabelShape),
        Some(Label::Indirect(var)) => var.to_ir_expression(),
    }
}

/// The term that a call returns to.
pub fn to_return_target(label: &Option<Label>) -> (r: Result<Option<Tid>, LiftError>)
    ensures
        outcome(r) == return_target(label.deep_view()),
{
    match label {
        None => Ok(None),
        Some(Label::Direct(tid)) => Ok(Some(tid.clone())),
        Some(Label::Indirect(_)) => Err(LiftError::LabelShape),
    }
}

impl Call {
    fn lift_direct(&self) -> (r: Result<IrJmp, LiftError>)
        ensures
            outcome(r) == self.deep_view().lifted_direct(),
    {
        let target = match to_direct_target(&self.target, LiftError::MissingCallField) {
            Ok(target) => target,
            Err(e) => {
                return Err(e);
            },
        };
        match to_return_target(&self.return_) {
            Ok(return_) => Ok(IrJmp::Call { target, return_ }),
            Err(e) => Err(e),
        }
    }

    fn lift_indirect(&self) -> (r: Result<IrJmp, LiftError>)
        ensures
            outcome(r) == self.deep_view().lifted_indirect(),
    {
        let target = match to_indirect_target(&self.target, LiftError::MissingCallField) {
            Ok(target) => target,
            Err(e) => {
                return Err(e);
            },
        };
        match to_return_target(&self.return_) {
            Ok(return_) => Ok(IrJmp::CallInd { target, return_ }),
            Err(e) => Err(e),
        }
    }

    fn lift_other(&self) -> (r: Result<IrJmp, LiftError>)
        ensures
            outcome(r) == self.deep_view().lifted_other(),
    {
        let description = match &self.call_string {
            Some(description) => description.clone(),
            None => {
                return Err(LiftError::MissingCallField);
            },
        };
        match to_return_target(&self.return_) {
            Ok(return_) => Ok(IrJmp::CallOther { description, return_ }),
            Err(e) => Err(e),
        }
    }
}

impl Jmp {
    fn lift_cbranch(&self) -> (r: Result<IrJmp, LiftError>)
        ensures
            outcome(r) == self.deep_view().lifted_cbranch(),
    {
        let target = match to_direct_target(&self.goto, LiftError::MissingLabel) {
            Ok(target) => target,
            Err(e) => {
                return Err(e);
            },
        };
        match &self.condition {
            None => Err(LiftError::MissingCondition),
            Some(var) => match var.to_ir_expression() {
                Ok(condition) => Ok(IrJmp::CBranch { target, condition }),
                Err(e) => Err(e),
            },
        }
    }

    /// Converts the jump into the jump of the intermediate representation
    /// that it stands for. A jump whose fields do not fit its mnemonic is
    /// an error.
    pub fn to_ir_jmp(&self) -> (r: Result<IrJmp, LiftError>)
        ensures
            outcome(r) == self.deep_view().lifted(),
    {
        match self.mnemonic {
            JmpType::BRANCH => match to_direct_target(&self.goto, LiftError::MissingLabel) {
                Ok(target) => Ok(IrJmp::Branch(target)),
                Err(e) => Err(e),
            },
            JmpType::CBRANCH => self.lift_cbranch(),
            JmpType::BRANCHIND => match to_indirect_target(&self.goto, LiftError::MissingLabel) {
                Ok(target) => Ok(IrJmp::BranchInd(target)),
                Err(e) => Err(e),
            },
            JmpType::CALL => match &self.call {
                None => Err(LiftError::MissingCall),
                Some(call) => call.lift_direct(),
            },
            JmpType::CALLIND => match &self.call {
                None => Err(LiftError::MissingCall),
                Some(call) => call.lift_indirect(),
            },
            JmpType::CALLOTHER => match &self.call {
                None => Err(LiftError::MissingCall),
                Some(call) => call.lift_other(),
            },
            JmpType::RETURN => match to_indirect_target(&self.goto, LiftError::MissingLabel) {
                Ok(target) => Ok(IrJmp::Return(target)),
                Err(e) => Err(e),
            },
        }
    }
}

} // verus!
