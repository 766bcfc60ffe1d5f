//! Extern symbols, calling conventions, programs and projects as the
//! disassembler emits them, and the conversion of the first three.

use crate::canonical::{canonical_program, canonicalize_subs, program_is_canonical};
use crate::error::{lemma_try_map_fails_at, lemma_try_map_succeeds, outcome, try_map, LiftError};
use crate::hex::{parse_hex_i64, parse_hex_u64, signed_hex, unsigned_hex};
use crate::ir::instruction::{starts_at_entry, IrSub, IrSubView};
use crate::ir::program::{
    IrArg, IrArgView, IrCallingConvention, IrCallingConventionView, IrExternSymbol,
    IrExternSymbolView, IrProgram, IrProgramView, IrProject, IrProjectView,
};
use crate::subregister::{register_table_is_consistent, table_is_consistent};
use crate::pcode::block::{lift_sub, lifted_sub, Sub, SubView};
use crate::pcode::operand::{
    clone_text, Expression, ExpressionType, ExpressionView, RegisterProperties,
    RegisterPropertiesView, Variable, VariableView,
};
use crate::text::clone_texts;
use crate::tid::{Term, TermView, Tid, TidView};
use vstd::prelude::*;

verus! {

/// Whether an argument is passed to a function or handed back by it.
#[derive(Debug, Clone, Copy, PartialEq, Eq, Hash, Structural)]
pub enum ArgIntent {
    /// The argument is a parameter.
    INPUT,
    /// The argument is a return value.
    OUTPUT,
}

/// A parameter or a return value of an extern symbol: it lies either in a
/// register or on the stack.
#[derive(Debug, PartialEq, Eq, Hash, Clone)]
pub struct Arg {
    /// The register, where the argument lies in one.
    pub var: Option<Variable>,
    /// The operation that reads the argument, where it lies on the stack.
    pub location: Option<Expression>,
    /// Whether the argument is a parameter or a return value.
    pub intent: ArgIntent,
}

/// The mathematical value of an [`Arg`].
pub ghost struct ArgView {
    pub var: Option<VariableView>,
    pub location: Option<ExpressionView>,
    pub intent: ArgIntent,
}

impl DeepView for Arg {
    type V = ArgView;

    open spec fn deep_view(&self) -> ArgView {
        ArgView {
            var: self.var.deep_view(),
            location: self.location.deep_view(),
            intent: self.intent,
        }
    }
}

/// The stack argument that a location stands for. The location has to be
/// a `LOAD` whose slot 0 carries an address; the address is the signed
/// offset of the argument, as a hexadecimal text, and the size of the
/// slot is the size of the argument.
pub open spec fn stack_argument(location: ExpressionView) -> Result<IrArgView, LiftError> {
    if location.mnemonic != ExpressionType::LOAD {
        Err(LiftError::StackLocation)
    } else {
        match location.input0 {
            None => Err(LiftError::StackLocation),
            Some(slot) => match slot.address {
                None => Err(LiftError::StackLocation),
                Some(text) => match signed_hex(text) {
                    Some(n) => if i64::MIN <= n <= i64::MAX {
                        Ok(IrArgView::Stack { offset: n as i64, size: slot.size })
                    } else {
                        Err(LiftError::InvalidHex)
                    },
                    None => Err(LiftError::InvalidHex),
                },
            },
        }
    }
}

impl ArgView {
    /// The argument of the intermediate representation that the argument
    /// stands for. An argument that has both a register and a location,
    /// or neither, stands for none.
    pub open spec fn lifted(self) -> Result<IrArgView, LiftError> {
        match (self.var, self.location) {
            (Some(var), None) => match var.as_register() {
                Ok(register) => Ok(IrArgView::Register(register)),
                Err(e) => Err(e),
            },
            (None, Some(location)) => stack_argument(location),
            _ => Err(LiftError::ArgumentShape),
        }
    }
}

/// Converts the location of a stack argument.
fn lift_stack_argument(location: &Expression) -> (r: Result<IrArg, LiftError>)
    ensures
        outcome(r) == stack_argument(location.deep_view()),
{
    if location.mnemonic != ExpressionType::LOAD {
        return Err(LiftError::StackLocation);
    }
    match &location.input0 {
        None => Err(LiftError::StackLocation),
        Some(slot) => match &slot.address {
            None => Err(LiftError::StackLocation),
            Some(text) => match parse_hex_i64(text.as_str()) {
                Some(offset) => Ok(IrArg::Stack { offset, size: slot.size }),
                None => Err(LiftError::InvalidHex),
            },
        },
    }
}

impl Arg {
    /// Converts the argument into the argument of the intermediate
    /// representation that it stands for.
    pub fn to_ir_arg(&self) -> (r: Result<IrArg, LiftError>)
        ensures
            outcome(r) == self.deep_view().lifted(),
    {
        match (&self.var, &self.location) {
            (Some(var), None) => match var.to_ir_variable() {
                Ok(register) => Ok(IrArg::Register(register)),
                Err(e) => Err(e),
            },
            (None, Some(location)) => lift_stack_argument(location),
            _ => Err(LiftError::ArgumentShape),
        }
    }
}

/// A function that is linked in from a shared library.
#[derive(Debug, PartialEq, Eq, Hash, Clone)]
pub struct ExternSymbol {
    /// The identifier of the symbol.
    pub tid: Tid,
    /// The addresses at which the symbol can be called. There may be
    /// several, since a stub that forwards to the symbol counts as the
    /// symbol itself.
    pub addresses: Vec<String>,
    /// The name of the symbol.
    pub name: String,
    /// The name of the calling convention as the disassembler reports it.
    pub calling_convention: Option<String>,
    /// The parameters and return values of the symbol.
    pub arguments: Vec<Arg>,
    /// Whether a call of the symbol never returns.
    pub no_return: bool,
}

/// The mathematical value of an [`ExternSymbol`].
pub ghost struct ExternSymbolView {
    pub tid: TidView,
    pub addresses: Seq<Seq<char>>,
    pub name: Seq<char>,
    pub calling_convention: Option<Seq<char>>,
    pub arguments: Seq<ArgView>,
    pub no_return: bool,
}

impl DeepView for ExternSymbol {
    type V = ExternSymbolView;

    open spec fn deep_view(&self) -> ExternSymbolView {
        ExternSymbolView {
            tid: self.tid.deep_view(),
            addresses: self.addresses.deep_view(),
            name: self.name@,
            calling_convention: self.calling_convention.deep_view(),
            arguments: self.arguments.deep_view(),
            no_return: self.no_return,
        }
    }
}

/// The arguments with the given intent, each converted, in their order.
pub open spec fn lifted_arguments(arguments: Seq<ArgView>, intent: ArgIntent) -> Seq<IrArgView> {
    arguments.filter(|a: ArgView| a.intent == intent).map_values(|a: ArgView| a.lifted()->Ok_0)
}

impl ExternSymbolView {
    /// The extern symbol of the intermediate representation that the
    /// symbol stands for: its parameters are the arguments that are
    /// passed in, its return values those that are handed back. The
    /// first argument that cannot be converted decides the error.
    #[verifier::opaque]
    pub open spec fn lifted(self) -> Result<IrExternSymbolView, LiftError> {
        match try_map(self.arguments, |a: ArgView| a.lifted()) {
            Err(e) => Err(e),
            Ok(_) => Ok(
                IrExternSymbolView {
                    tid: self.tid,
                    addresses: self.addresses,
                    name: self.name,
                    calling_convention: self.calling_convention,
                    parameters: lifted_arguments(self.arguments, ArgIntent::INPUT),
                    return_values: lifted_arguments(self.arguments, ArgIntent::OUTPUT),
                    no_return: self.no_return,
                },
            ),
        }
    }
}

impl ExternSymbol {
    /// Converts the symbol into the extern symbol of the intermediate
    /// representation that it stands for.
    pub fn to_ir_symbol(&self) -> (r: Result<IrExternSymbol, LiftError>)
        ensures
            outcome(r) == self.deep_view().lifted(),
    {
        reveal(ExternSymbolView::lifted);
        let ghost args = self.arguments.deep_view();
        let ghost f = |a: ArgView| a.lifted();
        let ghost is_in = |a: ArgView| a.intent == ArgIntent::INPUT;
        let ghost is_out = |a: ArgView| a.intent == ArgIntent::OUTPUT;
        let ghost value = |a: ArgView| a.lifted()->Ok_0;
        let mut parameters: Vec<IrArg> = Vec::new();
        let mut return_values: Vec<IrArg> = Vec::new();
        let mut i: usize = 0;
        while i < self.arguments.len()
            invariant
                i <= self.arguments.len(),
                args == self.arguments.deep_view(),
                f == |a: ArgView| a.lifted(),
                is_in == |a: ArgView| a.intent == ArgIntent::INPUT,
                is_out == |a: ArgView| a.intent == ArgIntent::OUTPUT,
                value == |a: ArgView| a.lifted()->Ok_0,
                forall|k: int| 0 <= k < i ==> (#[trigger] f(args[k])) is Ok,
                parameters.deep_view() == args.take(i as int).filter(is_in).map_values(value),
                return_values.deep_view() == args.take(i as int).filter(is_out).map_values(value),
            decreases self.arguments.len() - i,
        {
            let ghost old_parameters = parameters.deep_view();
            let ghost old_return_values = return_values.deep_view();
            let arg = &self.arguments[i];
            proof {
                args.lemma_take_succ_push(i as int);
                args.take(i as int).lemma_filter_push(args[i as int], is_in);
                args.take(i as int).lemma_filter_push(args[i as int], is_out);
            }
            match arg.to_ir_arg() {
                Err(e) => {
                    proof {
                        lemma_try_map_fails_at(args, f, i as int);
                        reveal(ExternSymbolView::lifted);
                    }
                    return Err(e);
                },
                Ok(ir_arg) => {
                    match arg.intent {
                        ArgIntent::INPUT => {
                            parameters.push(ir_arg);
                            assert(parameters.deep_view() =~= old_parameters.push(
                                value(args[i as int]),
                            ));
                        },
                        ArgIntent::OUTPUT => {
                            return_values.push(ir_arg);
                            assert(return_values.deep_view() =~= old_return_values.push(
                                value(args[i as int]),
                            ));
                        },
                    }
                },
            }
            i += 1;
        }
        proof {
            assert(args.take(i as int) =~= args);
        }
        Ok(
            IrExternSymbol {
                tid: self.tid.clone(),
                addresses: clone_texts(&self.addresses),
                name: self.name.clone(),
                calling_convention: clone_text(&self.calling_convention),
                parameters,
                return_values,
                no_return: self.no_return,
            },
        )
    }
}

/// A calling convention as the disassembler describes it.
#[derive(Debug, PartialEq, Eq, Hash, Clone)]
pub struct CallingConvention {
    /// The name of the calling convention.
    pub name: String,
    /// The registers that may carry parameters.
    pub parameter_register: Vec<String>,
    /// The registers that may carry return values.
    pub return_register: Vec<String>,
    /// The registers whose values a call leaves as they were.
    pub unaffected_register: Vec<String>,
    /// The registers whose values a call may overwrite.
    pub killed_by_call_register: Vec<String>,
}

/// The mathematical value of a [`CallingConvention`].
pub ghost struct CallingConventionView {
    pub name: Seq<char>,
    pub parameter_register: Seq<Seq<char>>,
    pub return_register: Seq<Seq<char>>,
    pub unaffected_register: Seq<Seq<char>>,
    pub killed_by_call_register: Seq<Seq<char>>,
}

impl DeepView for CallingConvention {
    type V = CallingConventionView;

    open spec fn deep_view(&self) -> CallingConventionView {
        CallingConventionView {
            name: self.name@,
            parameter_register: self.parameter_register.deep_view(),
            return_register: self.return_register.deep_view(),
            unaffected_register: self.unaffected_register.deep_view(),
            killed_by_call_register: self.killed_by_call_register.deep_view(),
        }
    }
}

impl CallingConventionView {
    /// The calling convention of the intermediate representation: the
    /// registers that a call leaves as they were are the ones that the
    /// callee saves, and those that a call may overwrite are not kept.
    pub open spec fn lifted(self) -> IrCallingConventionView {
        IrCallingConventionView {
            name: self.name,
            parameter_register: self.parameter_register,
            return_register: self.return_register,
            callee_saved_register: self.unaffected_register,
        }
    }
}

impl CallingConvention {
    /// Converts the calling convention into the one of the intermediate
    /// representation.
    pub fn to_ir_calling_convention(&self) -> (r: IrCallingConvention)
        ensures
            r.deep_view() == self.deep_view().lifted(),
    {
        IrCallingConvention {
            name: self.name.clone(),
            parameter_register: clone_texts(&self.parameter_register),
            return_register: clone_texts(&self.return_register),
            callee_saved_register: clone_texts(&self.unaffected_register),
        }
    }
}

/// All that the disassembler knows of a binary, but for what depends on
/// the architecture.
#[derive(Debug, PartialEq, Eq, Hash, Clone)]
pub struct Program {
    /// The functions of the binary.
    pub subs: Vec<Term<Sub>>,
    /// The extern symbols that the binary refers to.
    pub extern_symbols: Vec<ExternSymbol>,
    /// The identifiers of the entry points into the binary.
    pub entry_points: Vec<Tid>,
    /// The address at which the disassembler placed the image of the
    /// binary, as a hexadecimal text.
    pub image_base: String,
}

/// The mathematical value of a [`Program`].
pub ghost struct ProgramView {
    pub subs: Seq<TermView<SubView>>,
    pub extern_symbols: Seq<ExternSymbolView>,
    pub entry_points: Seq<TidView>,
    pub image_base: Seq<char>,
}

impl DeepView for Program {
    type V = ProgramView;

    open spec fn deep_view(&self) -> ProgramView {
        ProgramView {
            subs: self.subs.deep_view(),
            extern_symbols: self.extern_symbols.deep_view(),
            entry_points: self.entry_points.deep_view(),
            image_base: self.image_base@,
        }
    }
}

/// What the disassembler added to every address of the binary: the image
/// base, read as an unsigned hexadecimal text, less the base address that
/// the binary itself states.
pub open spec fn address_base_offset(image_base: Seq<char>, binary_base_address: u64) -> Result<
    u64,
    LiftError,
> {
    match unsigned_hex(image_base) {
        Some(n) => if n > u64::MAX {
            Err(LiftError::InvalidHex)
        } else if n < binary_base_address {
            Err(LiftError::ImageBase)
        } else {
            Ok((n - binary_base_address) as u64)
        },
        None => Err(LiftError::InvalidHex),
    }
}

impl ProgramView {
    /// The program of the intermediate representation that the program
    /// stands for: its functions and extern symbols, each converted, its
    /// entry points, and the offset of its addresses. The first function
    /// that cannot be converted decides the error, then the first such
    /// extern symbol, then the image base.
    #[verifier::opaque]
    pub open spec fn lifted(self, binary_base_address: u64) -> Result<IrProgramView, LiftError> {
        match try_map(self.subs, |s: TermView<SubView>| lifted_sub(s)) {
            Err(e) => Err(e),
            Ok(subs) => match try_map(self.extern_symbols, |s: ExternSymbolView| s.lifted()) {
                Err(e) => Err(e),
                Ok(extern_symbols) => match address_base_offset(
                    self.image_base,
                    binary_base_address,
                ) {
                    Err(e) => Err(e),
                    Ok(offset) => Ok(
                        IrProgramView {
                            subs,
                            extern_symbols,
                            entry_points: self.entry_points,
                            address_base_offset: offset,
                        },
                    ),
                },
            },
        }
    }
}

/// Converts functions, in their order.
pub fn lift_subs(subs: &Vec<Term<Sub>>) -> (r: Result<Vec<Term<IrSub>>, LiftError>)
    ensures
        outcome(r) == try_map(subs.deep_view(), |s: TermView<SubView>| lifted_sub(s)),
{
    let ghost f = |s: TermView<SubView>| lifted_sub(s);
    let mut out: Vec<Term<IrSub>> = Vec::new();
    let mut i: usize = 0;
    while i < subs.len()
        invariant
            i <= subs.len(),
            out.len() == i,
            f == |s: TermView<SubView>| lifted_sub(s),
            forall|k: int|
                0 <= k < i ==> (#[trigger] f(subs.deep_view()[k])) == Ok::<
                    TermView<IrSubView>,
                    LiftError,
                >(out.deep_view()[k]),
        decreases subs.len() - i,
    {
        let ghost before = out.deep_view();
        match lift_sub(&subs[i]) {
            Ok(sub) => {
                out.push(sub);
            },
            Err(e) => {
                proof {
                    let s = subs.deep_view();
                    assert forall|k: int| 0 <= k < s.take(i as int).len() implies (#[trigger] f(
                        s.take(i as int)[k],
                    )) is Ok by {
                        assert(f(s[k]) is Ok);
                    }
                    lemma_try_map_fails_at(s, f, i as int);
                }
                return Err(e);
            },
        }
        proof {
            assert forall|k: int| 0 <= k < i + 1 implies (#[trigger] f(subs.deep_view()[k]))
                == Ok::<TermView<IrSubView>, LiftError>(out.deep_view()[k]) by {
                if k < i {
                    assert(out.deep_view()[k] == before[k]);
                }
            }
        }
        i += 1;
    }
    proof {
        lemma_try_map_succeeds(subs.deep_view(), f, out.deep_view());
    }
    Ok(out)
}

/// Converts extern symbols, in their order.
pub fn lift_symbols(symbols: &Vec<ExternSymbol>) -> (r: Result<Vec<IrExternSymbol>, LiftError>)
    ensures
        outcome(r) == try_map(symbols.deep_view(), |s: ExternSymbolView| s.lifted()),
{
    let ghost f = |s: ExternSymbolView| s.lifted();
    let mut out: Vec<IrExternSymbol> = Vec::new();
    let mut i: usize = 0;
    while i < symbols.len()
        invariant
            i <= symbols.len(),
            out.len() == i,
            f == |s: ExternSymbolView| s.lifted(),
            forall|k: int|
                0 <= k < i ==> (#[trigger] f(symbols.deep_view()[k])) == Ok::<
                    IrExternSymbolView,
                    LiftError,
                >(out.deep_view()[k]),
        decreases symbols.len() - i,
    {
        let ghost before = out.deep_view();
        match symbols[i].to_ir_symbol() {
            Ok(symbol) => {
                out.push(symbol);
            },
            Err(e) => {
                proof {
                    let s = symbols.deep_view();
                    assert forall|k: int| 0 <= k < s.take(i as int).len() implies (#[trigger] f(
                        s.take(i as int)[k],
                    )) is Ok by {
                        assert(f(s[k]) is Ok);
                    }
                    lemma_try_map_fails_at(s, f, i as int);
                }
                return Err(e);
            },
        }
        proof {
            assert forall|k: int| 0 <= k < i + 1 implies (#[trigger] f(symbols.deep_view()[k]))
                == Ok::<IrExternSymbolView, LiftError>(out.deep_view()[k]) by {
                if k < i {
                    assert(out.deep_view()[k] == before[k]);
                }
            }
        }
        i += 1;
    }
    proof {
        lemma_try_map_succeeds(symbols.deep_view(), f, out.deep_view());
    }
    Ok(out)
}

/// A copy of a list of identifiers.
pub fn clone_tids(tids: &Vec<Tid>) -> (r: Vec<Tid>)
    ensures
        r.deep_view() == tids.deep_view(),
{
    let mut out: Vec<Tid> = Vec::new();
    let mut i: usize = 0;
    while i < tids.len()
        invariant
            i <= tids.len(),
            out.len() == i,
            forall|k: int| 0 <= k < i ==> out[k] == tids[k],
        decreases tids.len() - i,
    {
        out.push(tids[i].clone());
        i += 1;
    }
    out
}

/// Computes what the disassembler added to every address of the binary.
pub fn compute_address_base_offset(image_base: &str, binary_base_address: u64) -> (r: Result<
    u64,
    LiftError,
>)
    ensures
        r == address_base_offset(image_base@, binary_base_address),
{
    match parse_hex_u64(image_base) {
        Some(n) => if n < binary_base_address {
            Err(LiftError::ImageBase)
        } else {
            Ok(n - binary_base_address)
        },
        None => Err(LiftError::InvalidHex),
    }
}

impl Program {
    /// Converts the program into the program of the intermediate
    /// representation that it stands for. `binary_base_address` is the
    /// base address that the headers of the binary itself state.
    pub fn into_ir_program(self, binary_base_address: u64) -> (r: Result<IrProgram, LiftError>)
        ensures
            outcome(r) == self.deep_view().lifted(binary_base_address),
    {
        reveal(ProgramView::lifted);
        let subs = match lift_subs(&self.subs) {
            Ok(subs) => subs,
            Err(e) => {
                return Err(e);
            },
        };
        let extern_symbols = match lift_symbols(&self.extern_symbols) {
            Ok(extern_symbols) => extern_symbols,
            Err(e) => {
                return Err(e);
            },
        };
        let address_base_offset = match compute_address_base_offset(
            self.image_base.as_str(),
            binary_base_address,
        ) {
            Ok(offset) => offset,
            Err(e) => {
                return Err(e);
            },
        };
        Ok(
            IrProgram {
                subs,
                extern_symbols,
                entry_points: clone_tids(&self.entry_points),
                address_base_offset,
            },
        )
    }
}

/// All that the disassembler knows of a binary and of its architecture.
#[derive(Debug, PartialEq, Eq, Hash, Clone)]
pub struct Project {
    /// The program.
    pub program: Term<Program>,
    /// The name of the architecture.
    pub cpu_architecture: String,
    /// The register that holds the stack pointer.
    pub stack_pointer_register: Variable,
    /// What is known of the registers of the architecture.
    pub register_properties: Vec<RegisterProperties>,
    /// The calling conventions that are known for the architecture.
    pub register_calling_convention: Vec<CallingConvention>,
}

/// The mathematical value of a [`Project`].
pub ghost struct ProjectView {
    pub program: TermView<ProgramView>,
    pub cpu_architecture: Seq<char>,
    pub stack_pointer_register: VariableView,
    pub register_properties: Seq<RegisterPropertiesView>,
    pub register_calling_convention: Seq<CallingConventionView>,
}

impl DeepView for Project {
    type V = ProjectView;

    open spec fn deep_view(&self) -> ProjectView {
        ProjectView {
            program: self.program.deep_view(),
            cpu_architecture: self.cpu_architecture@,
            stack_pointer_register: self.stack_pointer_register.deep_view(),
            register_properties: self.register_properties.deep_view(),
            register_calling_convention: self.register_calling_convention.deep_view(),
        }
    }
}

impl ProjectView {
    /// The project of the intermediate representation that the project
    /// stands for: the program, converted and then brought into
    /// canonical form by the register table, the stack pointer as a
    /// register, and the calling conventions, each converted. What
    /// cannot be converted in the program decides the error, then a
    /// register table that is not consistent, then the stack pointer.
    #[verifier::opaque]
    pub open spec fn lifted(self, binary_base_address: u64) -> Result<IrProjectView, LiftError> {
        match self.program.term.lifted(binary_base_address) {
            Err(e) => Err(e),
            Ok(program) => if !table_is_consistent(self.register_properties) {
                Err(LiftError::RegisterTable)
            } else {
                match self.stack_pointer_register.as_register() {
                    Err(e) => Err(e),
                    Ok(stack_pointer_register) => Ok(
                        IrProjectView {
                            program: TermView {
                                tid: self.program.tid,
                                term: canonical_program(program, self.register_properties),
                            },
                            cpu_architecture: self.cpu_architecture,
                            stack_pointer_register,
                            calling_conventions: self.register_calling_convention.map_values(
                                |c: CallingConventionView| c.lifted(),
                            ),
                        },
                    ),
                }
            },
        }
    }
}

/// Converts calling conventions, in their order.
pub fn lift_calling_conventions(conventions: &Vec<CallingConvention>) -> (r: Vec<
    IrCallingConvention,
>)
    ensures
        r.deep_view() == conventions.deep_view().map_values(
            |c: CallingConventionView| c.lifted(),
        ),
{
    let ghost f = |c: CallingConventionView| c.lifted();
    let mut out: Vec<IrCallingConvention> = Vec::new();
    let mut i: usize = 0;
    while i < conventions.len()
        invariant
            i <= conventions.len(),
            out.len() == i,
            forall|k: int|
                0 <= k < i ==> (#[trigger] out[k]).deep_view() == conventions[k].deep_view().lifted(),
        decreases conventions.len() - i,
    {
        out.push(conventions[i].to_ir_calling_convention());
        i += 1;
    }
    assert(out.deep_view() =~= conventions.deep_view().map_values(f));
    out
}

impl Project {
    /// Converts the project into the project of the intermediate
    /// representation that it stands for. `binary_base_address` is the
    /// base address that the headers of the binary itself state.
    ///
    /// The program is converted first. Then every access to a
    /// sub-register becomes an access to a byte range of its base
    /// register, as the register table describes it.
    ///
    /// In the project that is returned, every function has no code or
    /// starts with its entry block, and no instruction or jump names a
    /// sub-register.
    pub fn into_ir_project(self, binary_base_address: u64) -> (r: Result<IrProject, LiftError>)
        ensures
            outcome(r) == self.deep_view().lifted(binary_base_address),
            r matches Ok(project) ==> {
                &&& forall|i: int|
                    0 <= i < project.program.term.subs.len() ==> starts_at_entry(
                        #[trigger] project.deep_view().program.term.subs[i],
                    )
                &&& program_is_canonical(
                    project.deep_view().program.term,
                    self.register_properties.deep_view(),
                )
            },
    {
        reveal(ProjectView::lifted);
        let ghost view = self.deep_view();
        proof {
            if view.lifted(binary_base_address) is Ok {
                crate::laws::lemma_emitted_subs_start_at_entry(view, binary_base_address);
                crate::laws::lemma_emitted_program_is_canonical(view, binary_base_address);
            }
        }
        let Project {
            program,
            cpu_architecture,
            stack_pointer_register,
            register_properties,
            register_calling_convention,
        } = self;
        let Term { tid, term } = program;
        let lifted = match term.into_ir_program(binary_base_address) {
            Ok(lifted) => lifted,
            Err(e) => {
                return Err(e);
            },
        };
        if !register_table_is_consistent(&register_properties) {
            return Err(LiftError::RegisterTable);
        }
        let stack_pointer = match stack_pointer_register.to_ir_variable() {
            Ok(stack_pointer) => stack_pointer,
            Err(e) => {
                return Err(e);
            },
        };
        let subs = canonicalize_subs(&lifted.subs, &register_properties);
        let calling_conventions = lift_calling_conventions(&register_calling_convention);
        Ok(
            IrProject {
                program: Term {
                    tid,
                    term: IrProgram {
                        subs,
                        extern_symbols: lifted.extern_symbols,
                        entry_points: lifted.entry_points,
                        address_base_offset: lifted.address_base_offset,
                    },
                },
                cpu_architecture,
                stack_pointer_register: stack_pointer,
                calling_conventions,
            },
        )
    }
}

} // verus!
