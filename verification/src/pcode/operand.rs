//! Operands of P-Code instructions: varnodes, operation mnemonics and the
//! expressions built from them.

use crate::bitvector::{constant_of_hex, Bitvector, ByteSize};
use crate::error::{outcome, LiftError};
use crate::hex::{parse_hex_u64, unsigned_hex};
use crate::ir::expression::{
    BinOpType, CastOpType, IrExpression, IrExpressionView, IrVariable, IrVariableView, UnOpType,
};
use crate::pcode::instruction::{Def, DefView};
use vstd::pervasive::unreached;
use vstd::prelude::*;
use vstd::string::StringExecFns;

verus! {

/// The mnemonic of a P-Code operation.
#[allow(non_camel_case_types)]
#[derive(Debug, Clone, Copy, PartialEq, Eq, Hash, Structural)]
pub enum ExpressionType {
    COPY,
    LOAD,
    STORE,
    PIECE,
    SUBPIECE,
    POPCOUNT,
    INT_EQUAL,
    INT_NOTEQUAL,
    INT_LESS,
    INT_SLESS,
    INT_LESSEQUAL,
    INT_SLESSEQUAL,
    INT_ADD,
    INT_SUB,
    INT_CARRY,
    INT_SCARRY,
    INT_SBORROW,
    INT_XOR,
    INT_AND,
    INT_OR,
    INT_LEFT,
    INT_RIGHT,
    INT_SRIGHT,
    INT_MULT,
    INT_DIV,
    INT_REM,
    INT_SDIV,
    INT_SREM,
    BOOL_XOR,
    BOOL_AND,
    BOOL_OR,
    FLOAT_EQUAL,
    FLOAT_NOTEQUAL,
    FLOAT_LESS,
    FLOAT_LESSEQUAL,
    FLOAT_ADD,
    FLOAT_SUB,
    FLOAT_MULT,
    FLOAT_DIV,
    INT_NEGATE,
    INT_2COMP,
    BOOL_NEGATE,
    FLOAT_NEGATE,
    FLOAT_ABS,
    FLOAT_SQRT,
    FLOAT_CEIL,
    FLOAT_FLOOR,
    FLOAT_ROUND,
    FLOAT_NAN,
    INT_ZEXT,
    INT_SEXT,
    INT2FLOAT,
    FLOAT2FLOAT,
    TRUNC,
}

impl ExpressionType {
    /// The two-operand operation that the mnemonic stands for, if it
    /// stands for one.
    pub open spec fn binary_op(self) -> Option<BinOpType> {
        match self {
            ExpressionType::PIECE => Some(BinOpType::Piece),
            ExpressionType::INT_EQUAL => Some(BinOpType::IntEqual),
            ExpressionType::INT_NOTEQUAL => Some(BinOpType::IntNotEqual),
            ExpressionType::INT_LESS => Some(BinOpType::IntLess),
            ExpressionType::INT_SLESS => Some(BinOpType::IntSLess),
            ExpressionType::INT_LESSEQUAL => Some(BinOpType::IntLessEqual),
            ExpressionType::INT_SLESSEQUAL => Some(BinOpType::IntSLessEqual),
            ExpressionType::INT_ADD => Some(BinOpType::IntAdd),
            ExpressionType::INT_SUB => Some(BinOpType::IntSub),
            ExpressionType::INT_CARRY => Some(BinOpType::IntCarry),
            ExpressionType::INT_SCARRY => Some(BinOpType::IntSCarry),
            ExpressionType::INT_SBORROW => Some(BinOpType::IntSBorrow),
            ExpressionType::INT_XOR => Some(BinOpType::IntXOr),
            ExpressionType::INT_AND => Some(BinOpType::IntAnd),
            ExpressionType::INT_OR => Some(BinOpType::IntOr),
            ExpressionType::INT_LEFT => Some(BinOpType::IntLeft),
            ExpressionType::INT_RIGHT => Some(BinOpType::IntRight),
            ExpressionType::INT_SRIGHT => Some(BinOpType::IntSRight),
            ExpressionType::INT_MULT => Some(BinOpType::IntMult),
            ExpressionType::INT_DIV => Some(BinOpType::IntDiv),
            ExpressionType::INT_REM => Some(BinOpType::IntRem),
            ExpressionType::INT_SDIV => Some(BinOpType::IntSDiv),
            ExpressionType::INT_SREM => Some(BinOpType::IntSRem),
            ExpressionType::BOOL_XOR => Some(BinOpType::BoolXOr),
            ExpressionType::BOOL_AND => Some(BinOpType::BoolAnd),
            ExpressionType::BOOL_OR => Some(BinOpType::BoolOr),
            ExpressionType::FLOAT_EQUAL => Some(BinOpType::FloatEqual),
            ExpressionType::FLOAT_NOTEQUAL => Some(BinOpType::FloatNotEqual),
            ExpressionType::FLOAT_LESS => Some(BinOpType::FloatLess),
            ExpressionType::FLOAT_LESSEQUAL => Some(BinOpType::FloatLessEqual),
            ExpressionType::FLOAT_ADD => Some(BinOpType::FloatAdd),
            ExpressionType::FLOAT_SUB => Some(BinOpType::FloatSub),
            ExpressionType::FLOAT_MULT => Some(BinOpType::FloatMult),
            ExpressionType::FLOAT_DIV => Some(BinOpType::FloatDiv),
            _ => None,
        }
    }

    /// The one-operand operation that the mnemonic stands for, if it
    /// stands for one.
    pub open spec fn unary_op(self) -> Option<UnOpType> {
        match self {
            ExpressionType::INT_NEGATE => Some(UnOpType::IntNegate),
            ExpressionType::INT_2COMP => Some(UnOpType::Int2Comp),
            ExpressionType::BOOL_NEGATE => Some(UnOpType::BoolNegate),
            ExpressionType::FLOAT_NEGATE => Some(UnOpType::FloatNegate),
            ExpressionType::FLOAT_ABS => Some(UnOpType::FloatAbs),
            ExpressionType::FLOAT_SQRT => Some(UnOpType::FloatSqrt),
            ExpressionType::FLOAT_CEIL => Some(UnOpType::FloatCeil),
            ExpressionType::FLOAT_FLOOR => Some(UnOpType::FloatFloor),
            ExpressionType::FLOAT_ROUND => Some(UnOpType::FloatRound),
            ExpressionType::FLOAT_NAN => Some(UnOpType::FloatNaN),
            _ => None,
        }
    }

    /// The conversion that the mnemonic stands for, if it stands for one.
    pub open spec fn cast_op(self) -> Option<CastOpType> {
        match self {
            ExpressionType::INT_ZEXT => Some(CastOpType::IntZExt),
            ExpressionType::INT_SEXT => Some(CastOpType::IntSExt),
            ExpressionType::INT2FLOAT => Some(CastOpType::Int2Float),
            ExpressionType::FLOAT2FLOAT => Some(CastOpType::Float2Float),
            ExpressionType::TRUNC => Some(CastOpType::Trunc),
            ExpressionType::POPCOUNT => Some(CastOpType::PopCount),
            _ => None,
        }
    }

    /// The two-operand operation that the mnemonic stands for.
    pub fn to_binary_op(self) -> (r: Option<BinOpType>)
        ensures
            r == self.binary_op(),
    {
        match self {
            ExpressionType::PIECE => Some(BinOpType::Piece),
            ExpressionType::INT_EQUAL => Some(BinOpType::IntEqual),
            ExpressionType::INT_NOTEQUAL => Some(BinOpType::IntNotEqual),
            ExpressionType::INT_LESS => Some(BinOpType::IntLess),
            ExpressionType::INT_SLESS => Some(BinOpType::IntSLess),
            ExpressionType::INT_LESSEQUAL => Some(BinOpType::IntLessEqual),
            ExpressionType::INT_SLESSEQUAL => Some(BinOpType::IntSLessEqual),
            ExpressionType::INT_ADD => Some(BinOpType::IntAdd),
            ExpressionType::INT_SUB => Some(BinOpType::IntSub),
            ExpressionType::INT_CARRY => Some(BinOpType::IntCarry),
            ExpressionType::INT_SCARRY => Some(BinOpType::IntSCarry),
            ExpressionType::INT_SBORROW => Some(BinOpType::IntSBorrow),
            ExpressionType::INT_XOR => Some(BinOpType::IntXOr),
            ExpressionType::INT_AND => Some(BinOpType::IntAnd),
            ExpressionType::INT_OR => Some(BinOpType::IntOr),
            ExpressionType::INT_LEFT => Some(BinOpType::IntLeft),
            ExpressionType::INT_RIGHT => Some(BinOpType::IntRight),
            ExpressionType::INT_SRIGHT => Some(BinOpType::IntSRight),
            ExpressionType::INT_MULT => Some(BinOpType::IntMult),
            ExpressionType::INT_DIV => Some(BinOpType::IntDiv),
            ExpressionType::INT_REM => Some(BinOpType::IntRem),
            ExpressionType::INT_SDIV => Some(BinOpType::IntSDiv),
            ExpressionType::INT_SREM => Some(BinOpType::IntSRem),
            ExpressionType::BOOL_XOR => Some(BinOpType::BoolXOr),
            ExpressionType::BOOL_AND => Some(BinOpType::BoolAnd),
            ExpressionType::BOOL_OR => Some(BinOpType::BoolOr),
            ExpressionType::FLOAT_EQUAL => Some(BinOpType::FloatEqual),
            ExpressionType::FLOAT_NOTEQUAL => Some(BinOpType::FloatNotEqual),
            ExpressionType::FLOAT_LESS => Some(BinOpType::FloatLess),
            ExpressionType::FLOAT_LESSEQUAL => Some(BinOpType::FloatLessEqual),
            ExpressionType::FLOAT_ADD => Some(BinOpType::FloatAdd),
            ExpressionType::FLOAT_SUB => Some(BinOpType::FloatSub),
            ExpressionType::FLOAT_MULT => Some(BinOpType::FloatMult),
            ExpressionType::FLOAT_DIV => Some(BinOpType::FloatDiv),
            _ => None,
        }
    }

    /// The one-operand operation that the mnemonic stands for.
    pub fn to_unary_op(self) -> (r: Option<UnOpType>)
        ensures
            r == self.unary_op(),
    {
        match self {
            ExpressionType::INT_NEGATE => Some(UnOpType::IntNegate),
            ExpressionType::INT_2COMP => Some(UnOpType::Int2Comp),
            ExpressionType::BOOL_NEGATE => Some(UnOpType::BoolNegate),
            ExpressionType::FLOAT_NEGATE => Some(UnOpType::FloatNegate),
            ExpressionType::FLOAT_ABS => Some(UnOpType::FloatAbs),
            ExpressionType::FLOAT_SQRT => Some(UnOpType::FloatSqrt),
            ExpressionType::FLOAT_CEIL => Some(UnOpType::FloatCeil),
            ExpressionType::FLOAT_FLOOR => Some(UnOpType::FloatFloor),
            ExpressionType::FLOAT_ROUND => Some(UnOpType::FloatRound),
            ExpressionType::FLOAT_NAN => Some(UnOpType::FloatNaN),
            _ => None,
        }
    }

    /// The conversion that the mnemonic stands for.
    pub fn to_cast_op(self) -> (r: Option<CastOpType>)
        ensures
            r == self.cast_op(),
    {
        match self {
            ExpressionType::INT_ZEXT => Some(CastOpType::IntZExt),
            ExpressionType::INT_SEXT => Some(CastOpType::IntSExt),
            ExpressionType::INT2FLOAT => Some(CastOpType::Int2Float),
            ExpressionType::FLOAT2FLOAT => Some(CastOpType::Float2Float),
            ExpressionType::TRUNC => Some(CastOpType::Trunc),
            ExpressionType::POPCOUNT => Some(CastOpType::PopCount),
            _ => None,
        }
    }
}

/// A varnode: a register, a temporary, a constant, or a location in
/// memory at a fixed address.
#[derive(Debug, PartialEq, Eq, Hash)]
pub struct Variable {
    /// The name, where the varnode is a register or a temporary.
    pub name: Option<String>,
    /// The value as a hexadecimal text, where the varnode is a constant.
    pub value: Option<String>,
    /// The address as a hexadecimal text, where the varnode stands for
    /// the memory at a fixed address.
    pub address: Option<String>,
    /// The size of the varnode in bytes.
    pub size: ByteSize,
    /// Whether the varnode is a temporary.
    pub is_virtual: bool,
}

/// The mathematical value of a [`Variable`].
pub ghost struct VariableView {
    pub name: Option<Seq<char>>,
    pub value: Option<Seq<char>>,
    pub address: Option<Seq<char>>,
    pub size: ByteSize,
    pub is_virtual: bool,
}

impl DeepView for Variable {
    type V = VariableView;

    open spec fn deep_view(&self) -> VariableView {
        VariableView {
            name: self.name.deep_view(),
            value: self.value.deep_view(),
            address: self.address.deep_view(),
            size: self.size,
            is_virtual: self.is_virtual,
        }
    }
}

impl VariableView {
    /// The temporary with the given name and size.
    pub open spec fn new_virtual(name: Seq<char>, size: ByteSize) -> VariableView {
        VariableView { name: Some(name), value: None, address: None, size, is_virtual: true }
    }

    /// The constant with the given hexadecimal text and size.
    pub open spec fn new_const(value: Seq<char>, size: ByteSize) -> VariableView {
        VariableView { name: None, value: Some(value), address: None, size, is_virtual: false }
    }

    /// The register of the intermediate representation that the varnode
    /// names. A varnode without a name is no register.
    pub open spec fn as_register(self) -> Result<IrVariableView, LiftError> {
        match self.name {
            Some(name) => Ok(
                IrVariableView { name, size: self.size, is_temp: self.is_virtual },
            ),
            None => Err(LiftError::OperandShape),
        }
    }

    /// The constant that the varnode holds as its value or as its
    /// address. A varnode with both or with neither holds none.
    pub open spec fn as_constant(self) -> Result<Seq<u8>, LiftError> {
        match (self.value, self.address) {
            (Some(text), None) => constant_of_hex(text, self.size),
            (None, Some(text)) => constant_of_hex(text, self.size),
            _ => Err(LiftError::OperandShape),
        }
    }

    /// The expression that reads the varnode: a register where it has a
    /// name and no value, a constant where it has a value and no name.
    pub open spec fn as_expression(self) -> Result<IrExpressionView, LiftError> {
        match (self.name, self.value) {
            (Some(_), None) => match self.as_register() {
                Ok(var) => Ok(IrExpressionView::Var(var)),
                Err(e) => Err(e),
            },
            (None, Some(_)) => match self.as_constant() {
                Ok(bytes) => Ok(IrExpressionView::Const(bytes)),
                Err(e) => Err(e),
            },
            _ => Err(LiftError::OperandShape),
        }
    }

    /// The number of bytes that a constant varnode denotes.
    pub open spec fn as_byte_count(self) -> Result<ByteSize, LiftError> {
        match (self.name, self.value) {
            (None, Some(text)) => match unsigned_hex(text) {
                Some(n) => if n <= u64::MAX {
                    Ok(ByteSize(n as u64))
                } else {
                    Err(LiftError::InvalidHex)
                },
                None => Err(LiftError::InvalidHex),
            },
            _ => Err(LiftError::OperandShape),
        }
    }

    /// The definition that loads the memory which the varnode stands for
    /// into a temporary: the temporary has the given name and the size of
    /// the varnode, and the address is a constant of the size of a
    /// pointer.
    pub open spec fn load_def(self, target_name: Seq<char>, pointer_size: ByteSize) -> DefView
        recommends
            self.address is Some,
    {
        DefView {
            lhs: Some(VariableView::new_virtual(target_name, self.size)),
            rhs: ExpressionView {
                mnemonic: ExpressionType::LOAD,
                input0: None,
                input1: Some(VariableView::new_const(self.address->Some_0, pointer_size)),
                input2: None,
            },
        }
    }
}

/// A copy of an optional text.
pub fn clone_text(text: &Option<String>) -> (r: Option<String>)
    ensures
        r == *text,
{
    match text {
        Some(t) => Some(t.clone()),
        None => None,
    }
}

impl Clone for Variable {
    fn clone(&self) -> (r: Variable)
        ensures
            r == *self,
    {
        Variable {
            name: clone_text(&self.name),
            value: clone_text(&self.value),
            address: clone_text(&self.address),
            size: self.size,
            is_virtual: self.is_virtual,
        }
    }
}

impl Variable {
    /// Makes a temporary with the given name and size.
    pub fn new_virtual(name: &str, size: ByteSize) -> (r: Variable)
        ensures
            r.deep_view() == VariableView::new_virtual(name@, size),
    {
        Variable {
            name: Some(String::from_str(name)),
            value: None,
            address: None,
            size,
            is_virtual: true,
        }
    }

    /// Makes a constant with the given hexadecimal text and size.
    pub fn new_const(value: &str, size: ByteSize) -> (r: Variable)
        ensures
            r.deep_view() == VariableView::new_const(value@, size),
    {
        Variable {
            name: None,
            value: Some(String::from_str(value)),
            address: None,
            size,
            is_virtual: false,
        }
    }

    /// Converts the varnode into the register that it names.
    pub fn to_ir_variable(&self) -> (r: Result<IrVariable, LiftError>)
        ensures
            outcome(r) == self.deep_view().as_register(),
    {
        match &self.name {
            Some(name) => Ok(
                IrVariable { name: name.clone(), size: self.size, is_temp: self.is_virtual },
            ),
            None => Err(LiftError::OperandShape),
        }
    }

    /// Reads the constant that the varnode holds as its value or as its
    /// address.
    pub fn parse_to_bitvector(&self) -> (r: Result<Bitvector, LiftError>)
        ensures
            outcome(r) == self.deep_view().as_constant(),
    {
        match (&self.value, &self.address) {
            (Some(text), None) => Bitvector::from_hex(text.as_str(), self.size),
            (None, Some(text)) => Bitvector::from_hex(text.as_str(), self.size),
            _ => Err(LiftError::OperandShape),
        }
    }

    /// Converts the varnode into the expression that reads it.
    pub fn to_ir_expression(&self) -> (r: Result<IrExpression, LiftError>)
        ensures
            outcome(r) == self.deep_view().as_expression(),
    {
        match (&self.name, &self.value) {
            (Some(_), None) => match self.to_ir_variable() {
                Ok(var) => Ok(IrExpression::Var(var)),
                Err(e) => Err(e),
            },
            (None, Some(_)) => match self.parse_to_bitvector() {
                Ok(bytes) => Ok(IrExpression::Const(bytes)),
                Err(e) => Err(e),
            },
            _ => Err(LiftError::OperandShape),
        }
    }

    /// Reads the number of bytes that a constant varnode denotes.
    pub fn parse_to_bytesize(&self) -> (r: Result<ByteSize, LiftError>)
        ensures
            r == self.deep_view().as_byte_count(),
    {
        match (&self.name, &self.value) {
            (None, Some(text)) => match parse_hex_u64(text.as_str()) {
                Some(n) => Ok(ByteSize(n)),
                None => Err(LiftError::InvalidHex),
            },
            _ => Err(LiftError::OperandShape),
        }
    }

    /// Makes the definition that loads the memory which the varnode
    /// stands for into a temporary with the given name.
    pub fn to_load_def(&self, target_register_name: &str, generic_pointer_size: ByteSize) -> (r:
        Def)
        requires
            self.address is Some,
        ensures
            r.deep_view() == self.deep_view().load_def(
                target_register_name@,
                generic_pointer_size,
            ),
    {
        let address = match &self.address {
            Some(text) => text.clone(),
            None => unreached(),
        };
        Def {
            lhs: Some(Variable::new_virtual(target_register_name, self.size)),
            rhs: Expression {
                mnemonic: ExpressionType::LOAD,
                input0: None,
                input1: Some(Variable::new_const(address.as_str(), generic_pointer_size)),
                input2: None,
            },
        }
    }
}

/// A P-Code operation with up to three operands. Which operands are
/// present depends on the mnemonic.
#[derive(Debug, PartialEq, Eq, Hash)]
pub struct Expression {
    /// The mnemonic of the operation.
    pub mnemonic: ExpressionType,
    /// The operand in slot 0.
    pub input0: Option<Variable>,
    /// The operand in slot 1.
    pub input1: Option<Variable>,
    /// The operand in slot 2.
    pub input2: Option<Variable>,
}

/// The mathematical value of an [`Expression`].
pub ghost struct ExpressionView {
    pub mnemonic: ExpressionType,
    pub input0: Option<VariableView>,
    pub input1: Option<VariableView>,
    pub input2: Option<VariableView>,
}

impl DeepView for Expression {
    type V = ExpressionView;

    open spec fn deep_view(&self) -> ExpressionView {
        ExpressionView {
            mnemonic: self.mnemonic,
            input0: self.input0.deep_view(),
            input1: self.input1.deep_view(),
            input2: self.input2.deep_view(),
        }
    }
}

/// The expression that reads an operand which has to be present.
pub open spec fn operand_expression(operand: Option<VariableView>) -> Result<
    IrExpressionView,
    LiftError,
> {
    match operand {
        Some(var) => var.as_expression(),
        None => Err(LiftError::MissingOperand),
    }
}

/// The register that an operand which has to be present names.
pub open spec fn operand_register(operand: Option<VariableView>) -> Result<
    IrVariableView,
    LiftError,
> {
    match operand {
        Some(var) => var.as_register(),
        None => Err(LiftError::MissingOperand),
    }
}

impl ExpressionView {
    /// The side-effect-free computation that the operation stands for:
    /// a copy reads slot 0, a one-operand operation works on slot 0, a
    /// two-operand operation on slots 0 and 1. Loads, stores, subpieces
    /// and conversions are no such computation by themselves.
    pub open spec fn as_expression(self) -> Result<IrExpressionView, LiftError> {
        if self.mnemonic == ExpressionType::COPY {
            operand_expression(self.input0)
        } else if let Some(op) = self.mnemonic.binary_op() {
            match operand_expression(self.input0) {
                Err(e) => Err(e),
                Ok(lhs) => match operand_expression(self.input1) {
                    Err(e) => Err(e),
                    Ok(rhs) => Ok(
                        IrExpressionView::BinOp { op, lhs: Box::new(lhs), rhs: Box::new(rhs) },
                    ),
                },
            }
        } else if let Some(op) = self.mnemonic.unary_op() {
            match operand_expression(self.input0) {
                Err(e) => Err(e),
                Ok(arg) => Ok(IrExpressionView::UnOp { op, arg: Box::new(arg) }),
            }
        } else {
            Err(LiftError::NotAnExpression)
        }
    }
}

/// Converts an operand which has to be present into the expression that
/// reads it.
pub fn operand_to_expression(operand: &Option<Variable>) -> (r: Result<IrExpression, LiftError>)
    ensures
        outcome(r) == operand_expression(operand.deep_view()),
{
    match operand {
        Some(var) => var.to_ir_expression(),
        None => Err(LiftError::MissingOperand),
    }
}

/// Converts an operand which has to be present into the register that it
/// names.
pub fn operand_to_register(operand: &Option<Variable>) -> (r: Result<IrVariable, LiftError>)
    ensures
        outcome(r) == operand_register(operand.deep_view()),
{
    match operand {
        Some(var) => var.to_ir_variable(),
        None => Err(LiftError::MissingOperand),
    }
}

impl Clone for Expression {
    fn clone(&self) -> (r: Expression)
        ensures
            r == *self,
    {
        Expression {
            mnemonic: self.mnemonic,
            input0: clone_operand(&self.input0),
            input1: clone_operand(&self.input1),
            input2: clone_operand(&self.input2),
        }
    }
}

/// A copy of an optional varnode.
pub fn clone_operand(operand: &Option<Variable>) -> (r: Option<Variable>)
    ensures
        r == *operand,
{
    match operand {
        Some(var) => Some(var.clone()),
        None => None,
    }
}

impl Expression {
    /// Converts the operation into the side-effect-free computation that
    /// it stands for.
    pub fn to_ir_expression(&self) -> (r: Result<IrExpression, LiftError>)
        ensures
            outcome(r) == self.deep_view().as_expression(),
    {
        if self.mnemonic == ExpressionType::COPY {
            operand_to_expression(&self.input0)
        } else if let Some(op) = self.mnemonic.to_binary_op() {
            let lhs = match operand_to_expression(&self.input0) {
                Ok(lhs) => lhs,
                Err(e) => {
                    return Err(e);
                },
            };
            let rhs = match operand_to_expression(&self.input1) {
                Ok(rhs) => rhs,
                Err(e) => {
                    return Err(e);
                },
            };
            Ok(IrExpression::BinOp { op, lhs: Box::new(lhs), rhs: Box::new(rhs) })
        } else if let Some(op) = self.mnemonic.to_unary_op() {
            match operand_to_expression(&self.input0) {
                Ok(arg) => Ok(IrExpression::UnOp { op, arg: Box::new(arg) }),
                Err(e) => Err(e),
            }
        } else {
            Err(LiftError::NotAnExpression)
        }
    }
}

/// What is known of a register of the architecture: which base register
/// holds it, and where in the base register it lies.
#[derive(Debug, PartialEq, Eq, Hash)]
pub struct RegisterProperties {
    /// The name of the register.
    pub register: String,
    /// The name of the base register. A base register names itself.
    pub base_register: String,
    /// The offset of the least significant byte of the register in its
    /// base register.
    pub lsb: ByteSize,
    /// The size of the register in bytes.
    pub size: ByteSize,
}

/// The mathematical value of a [`RegisterProperties`].
pub ghost struct RegisterPropertiesView {
    pub register: Seq<char>,
    pub base_register: Seq<char>,
    pub lsb: ByteSize,
    pub size: ByteSize,
}

impl DeepView for RegisterProperties {
    type V = RegisterPropertiesView;

    open spec fn deep_view(&self) -> RegisterPropertiesView {
        RegisterPropertiesView {
            register: self.register@,
            base_register: self.base_register@,
            lsb: self.lsb,
            size: self.size,
        }
    }
}

impl Clone for RegisterProperties {
    fn clone(&self) -> (r: RegisterProperties)
        ensures
            r == *self,
    {
        RegisterProperties {
            register: self.register.clone(),
            base_register: self.base_register.clone(),
            lsb: self.lsb,
            size: self.size,
        }
    }
}

} // verus!
