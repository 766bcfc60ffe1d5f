//! Extern symbols, calling conventions and whole programs of the
//! intermediate representation.

use crate::bitvector::ByteSize;
use crate::ir::expression::{IrVariable, IrVariableView};
use crate::ir::instruction::{IrSub, IrSubView};
use crate::tid::{Term, TermView, Tid, TidView};
use vstd::prelude::*;

verus! {

/// A parameter or a return value of an extern symbol.
#[derive(Debug, PartialEq, Eq, Hash, Clone)]
pub enum IrArg {
    /// The value is passed in a register.
    Register(IrVariable),
    /// The value is passed on the stack, at `offset` from the stack
    /// pointer at the call.
    Stack { offset: i64, size: ByteSize },
}

/// The mathematical value of an [`IrArg`].
pub ghost enum IrArgView {
    Register(IrVariableView),
    Stack { offset: i64, size: ByteSize },
}

impl DeepView for IrArg {
    type V = IrArgView;

    open spec fn deep_view(&self) -> IrArgView {
        match self {
            IrArg::Register(var) => IrArgView::Register(var.deep_view()),
            IrArg::Stack { offset, size } => IrArgView::Stack { offset: *offset, size: *size },
        }
    }
}

/// A function that is linked in from a shared library.
#[derive(Debug, PartialEq, Eq, Hash, Clone)]
pub struct IrExternSymbol {
    /// The identifier of the symbol.
    pub tid: Tid,
    /// The addresses at which the symbol can be called.
    pub addresses: Vec<String>,
    /// The name of the symbol.
    pub name: String,
    /// The name of the calling convention, if one is known.
    pub calling_convention: Option<String>,
    /// The parameters, in the order in which they were declared.
    pub parameters: Vec<IrArg>,
    /// The return values, in the order in which they were declared.
    pub return_values: Vec<IrArg>,
    /// Whether a call of the symbol never returns.
    pub no_return: bool,
}

/// The mathematical value of an [`IrExternSymbol`].
pub ghost struct IrExternSymbolView {
    pub tid: TidView,
    pub addresses: Seq<Seq<char>>,
    pub name: Seq<char>,
    pub calling_convention: Option<Seq<char>>,
    pub parameters: Seq<IrArgView>,
    pub return_values: Seq<IrArgView>,
    pub no_return: bool,
}

impl DeepView for IrExternSymbol {
    type V = IrExternSymbolView;

    open spec fn deep_view(&self) -> IrExternSymbolView {
        IrExternSymbolView {
            tid: self.tid.deep_view(),
            addresses: self.addresses.deep_view(),
            name: self.name@,
            calling_convention: self.calling_convention.deep_view(),
            parameters: self.parameters.deep_view(),
            return_values: self.return_values.deep_view(),
            no_return: self.no_return,
        }
    }
}

/// A calling convention: which registers carry parameters and return
/// values, and which ones a callee leaves as they were.
#[derive(Debug, PartialEq, Eq, Hash, Clone)]
pub struct IrCallingConvention {
    /// The name of the calling convention.
    pub name: String,
    /// The registers that may carry parameters.
    pub parameter_register: Vec<String>,
    /// The registers that may carry return values.
    pub return_register: Vec<String>,
    /// The registers whose values a call leaves as they were.
    pub callee_saved_register: Vec<String>,
}

/// The mathematical value of an [`IrCallingConvention`].
pub ghost struct IrCallingConventionView {
    pub name: Seq<char>,
    pub parameter_register: Seq<Seq<char>>,
    pub return_register: Seq<Seq<char>>,
    pub callee_saved_register: Seq<Seq<char>>,
}

impl DeepView for IrCallingConvention {
    type V = IrCallingConventionView;

    open spec fn deep_view(&self) -> IrCallingConventionView {
        IrCallingConventionView {
            name: self.name@,
            parameter_register: self.parameter_register.deep_view(),
            return_register: self.return_register.deep_view(),
            callee_saved_register: self.callee_saved_register.deep_view(),
        }
    }
}

/// All that is known of a binary, but for what depends on the
/// architecture.
#[derive(Debug, PartialEq, Eq, Hash, Clone)]
pub struct IrProgram {
    /// The functions of the binary.
    pub subs: Vec<Term<IrSub>>,
    /// The extern symbols that the binary refers to.
    pub extern_symbols: Vec<IrExternSymbol>,
    /// The identifiers of the entry points into the binary.
    pub entry_points: Vec<Tid>,
    /// What the disassembler added to every address of the binary.
    pub address_base_offset: u64,
}

/// The mathematical value of an [`IrProgram`].
pub ghost struct IrProgramView {
    pub subs: Seq<TermView<IrSubView>>,
    pub extern_symbols: Seq<IrExternSymbolView>,
    pub entry_points: Seq<TidView>,
    pub address_base_offset: u64,
}

impl DeepView for IrProgram {
    type V = IrProgramView;

    open spec fn deep_view(&self) -> IrProgramView {
        IrProgramView {
            subs: self.subs.deep_view(),
            extern_symbols: self.extern_symbols.deep_view(),
            entry_points: self.entry_points.deep_view(),
            address_base_offset: self.address_base_offset,
        }
    }
}

/// A program together with what is known of its architecture.
#[derive(Debug, PartialEq, Eq, Hash, Clone)]
pub struct IrProject {
    /// The program.
    pub program: Term<IrProgram>,
    /// The name of the architecture.
    pub cpu_architecture: String,
    /// The register that holds the stack pointer.
    pub stack_pointer_register: IrVariable,
    /// The calling conventions that are known for the architecture.
    pub calling_conventions: Vec<IrCallingConvention>,
}

/// The mathematical value of an [`IrProject`].
pub ghost struct IrProjectView {
    pub program: TermView<IrProgramView>,
    pub cpu_architecture: Seq<char>,
    pub stack_pointer_register: IrVariableView,
    pub calling_conventions: Seq<IrCallingConventionView>,
}

impl DeepView for IrProject {
    type V = IrProjectView;

    open spec fn deep_view(&self) -> IrProjectView {
        IrProjectView {
            program: self.program.deep_view(),
            cpu_architecture: self.cpu_architecture@,
            stack_pointer_register: self.stack_pointer_register.deep_view(),
            calling_conventions: self.calling_conventions.deep_view(),
        }
    }
}

} // verus!
