use pcode_lift::bitvector::ByteSize;
use pcode_lift::error::LiftError;
use pcode_lift::ir::expression::IrVariable;
use pcode_lift::ir::program::{IrArg, IrCallingConvention};
use pcode_lift::pcode::block::{Blk, Sub};
use pcode_lift::pcode::instruction::{Jmp, JmpType};
use pcode_lift::pcode::operand::{Expression, ExpressionType, RegisterProperties, Variable};
use pcode_lift::pcode::program::{
    clone_tids, compute_address_base_offset, lift_calling_conventions, lift_subs, lift_symbols,
    Arg, ArgIntent, CallingConvention, ExternSymbol, Program, Project,
};
use pcode_lift::tid::{Term, Tid};

fn pg_reg(name: &str, size: u64) -> Variable {
    Variable {
        name: Some(String::from(name)),
        value: None,
        address: None,
        size: ByteSize::new(size),
        is_virtual: false,
    }
}

fn pg_ir_reg(name: &str, size: u64) -> IrVariable {
    IrVariable {
        name: String::from(name),
        size: ByteSize::new(size),
        is_temp: false,
    }
}

fn pg_tid(id: &str, address: &str) -> Tid {
    Tid {
        id: String::from(id),
        address: String::from(address),
    }
}

fn pg_register_arg(name: &str, intent: ArgIntent) -> Arg {
    Arg {
        var: Some(pg_reg(name, 8)),
        location: None,
        intent,
    }
}

fn pg_stack_location(address: &str, size: u64) -> Expression {
    Expression {
        mnemonic: ExpressionType::LOAD,
        input0: Some(Variable {
            name: None,
            value: None,
            address: Some(String::from(address)),
            size: ByteSize::new(size),
            is_virtual: false,
        }),
        input1: None,
        input2: None,
    }
}

fn pg_stack_arg(address: &str, size: u64, intent: ArgIntent) -> Arg {
    Arg {
        var: None,
        location: Some(pg_stack_location(address, size)),
        intent,
    }
}

fn pg_symbol(arguments: Vec<Arg>) -> ExternSymbol {
    ExternSymbol {
        tid: pg_tid("sym_malloc", "5000"),
        addresses: vec![String::from("5000"), String::from("5008")],
        name: String::from("malloc"),
        calling_convention: Some(String::from("__stdcall")),
        arguments,
        no_return: false,
    }
}

fn pg_block(id: &str, address: &str) -> Term<Blk> {
    Term {
        tid: pg_tid(id, address),
        term: Blk {
            defs: Vec::new(),
            jmps: Vec::new(),
        },
    }
}

fn pg_sub(id: &str, address: &str, blocks: Vec<Term<Blk>>) -> Term<Sub> {
    Term {
        tid: pg_tid(id, address),
        term: Sub {
            name: String::from(id),
            blocks,
        },
    }
}

fn pg_program(subs: Vec<Term<Sub>>, extern_symbols: Vec<ExternSymbol>, image_base: &str) -> Program {
    Program {
        subs,
        extern_symbols,
        entry_points: vec![pg_tid("sub_1000", "1000")],
        image_base: String::from(image_base),
    }
}

fn pg_project(program: Program, register_properties: Vec<RegisterProperties>) -> Project {
    Project {
        program: Term {
            tid: pg_tid("prog", "UNKNOWN"),
            term: program,
        },
        cpu_architecture: String::from("x86_64"),
        stack_pointer_register: pg_reg("RSP", 8),
        register_properties,
        register_calling_convention: Vec::new(),
    }
}

#[test]
fn register_argument_lifts() {
    assert_eq!(
        pg_register_arg("RDI", ArgIntent::INPUT).to_ir_arg(),
        Ok(IrArg::Register(pg_ir_reg("RDI", 8)))
    );
}

#[test]
fn stack_argument_lifts_with_offset_and_size() {
    assert_eq!(
        pg_stack_arg("0x8", 4, ArgIntent::INPUT).to_ir_arg(),
        Ok(IrArg::Stack {
            offset: 8,
            size: ByteSize::new(4)
        })
    );
    assert_eq!(
        pg_stack_arg("10", 8, ArgIntent::INPUT).to_ir_arg(),
        Ok(IrArg::Stack {
            offset: 16,
            size: ByteSize::new(8)
        })
    );
    assert_eq!(
        pg_stack_arg("-4", 4, ArgIntent::OUTPUT).to_ir_arg(),
        Ok(IrArg::Stack {
            offset: -4,
            size: ByteSize::new(4)
        })
    );
}

#[test]
fn argument_with_both_or_neither_operand_fails() {
    let neither = Arg {
        var: None,
        location: None,
        intent: ArgIntent::INPUT,
    };
    assert_eq!(neither.to_ir_arg(), Err(LiftError::ArgumentShape));
    let both = Arg {
        var: Some(pg_reg("RDI", 8)),
        location: Some(pg_stack_location("8", 4)),
        intent: ArgIntent::INPUT,
    };
    assert_eq!(both.to_ir_arg(), Err(LiftError::ArgumentShape));
}

#[test]
fn stack_location_must_be_a_constant_address_load() {
    let mut not_a_load = pg_stack_location("8", 4);
    not_a_load.mnemonic = ExpressionType::COPY;
    let arg = Arg {
        var: None,
        location: Some(not_a_load),
        intent: ArgIntent::INPUT,
    };
    assert_eq!(arg.to_ir_arg(), Err(LiftError::StackLocation));
    let no_slot = Arg {
        var: None,
        location: Some(Expression {
            mnemonic: ExpressionType::LOAD,
            input0: None,
            input1: Some(pg_reg("RSP", 8)),
            input2: None,
        }),
        intent: ArgIntent::INPUT,
    };
    assert_eq!(no_slot.to_ir_arg(), Err(LiftError::StackLocation));
    let no_address = Arg {
        var: None,
        location: Some(Expression {
            mnemonic: ExpressionType::LOAD,
            input0: Some(pg_reg("RSP", 8)),
            input1: None,
            input2: None,
        }),
        intent: ArgIntent::INPUT,
    };
    assert_eq!(no_address.to_ir_arg(), Err(LiftError::StackLocation));
}

#[test]
fn stack_offset_must_be_hexadecimal() {
    assert_eq!(
        pg_stack_arg("eight", 4, ArgIntent::INPUT).to_ir_arg(),
        Err(LiftError::InvalidHex)
    );
    assert_eq!(
        pg_stack_arg("ffffffffffffffff", 4, ArgIntent::INPUT).to_ir_arg(),
        Err(LiftError::InvalidHex)
    );
}

#[test]
fn register_argument_needs_a_name() {
    let arg = Arg {
        var: Some(Variable::new_const("10", ByteSize::new(8))),
        location: None,
        intent: ArgIntent::INPUT,
    };
    assert_eq!(arg.to_ir_arg(), Err(LiftError::OperandShape));
}

#[test]
fn arguments_are_partitioned_by_intent() {
    let symbol = pg_symbol(vec![
        pg_register_arg("RDI", ArgIntent::INPUT),
        pg_register_arg("RAX", ArgIntent::OUTPUT),
        pg_stack_arg("8", 4, ArgIntent::INPUT),
        pg_register_arg("RSI", ArgIntent::INPUT),
        pg_register_arg("RDX", ArgIntent::OUTPUT),
    ]);
    let lifted = symbol.to_ir_symbol().unwrap();
    assert_eq!(
        lifted.parameters,
        vec![
            IrArg::Register(pg_ir_reg("RDI", 8)),
            IrArg::Stack {
                offset: 8,
                size: ByteSize::new(4)
            },
            IrArg::Register(pg_ir_reg("RSI", 8)),
        ]
    );
    assert_eq!(
        lifted.return_values,
        vec![
            IrArg::Register(pg_ir_reg("RAX", 8)),
            IrArg::Register(pg_ir_reg("RDX", 8)),
        ]
    );
    assert_eq!(lifted.tid, pg_tid("sym_malloc", "5000"));
    assert_eq!(
        lifted.addresses,
        vec![String::from("5000"), String::from("5008")]
    );
    assert_eq!(lifted.name, "malloc");
    assert_eq!(lifted.calling_convention, Some(String::from("__stdcall")));
    assert!(!lifted.no_return);
}

#[test]
fn symbol_without_arguments_lifts() {
    let mut symbol = pg_symbol(Vec::new());
    symbol.no_return = true;
    symbol.calling_convention = None;
    let lifted = symbol.to_ir_symbol().unwrap();
    assert!(lifted.parameters.is_empty());
    assert!(lifted.return_values.is_empty());
    assert!(lifted.no_return);
    assert_eq!(lifted.calling_convention, None);
}

#[test]
fn first_failing_argument_decides() {
    let symbol = pg_symbol(vec![
        pg_register_arg("RDI", ArgIntent::INPUT),
        pg_stack_arg("zz", 4, ArgIntent::OUTPUT),
        Arg {
            var: None,
            location: None,
            intent: ArgIntent::INPUT,
        },
    ]);
    assert_eq!(symbol.to_ir_symbol(), Err(LiftError::InvalidHex));
}

#[test]
fn calling_convention_renames_unaffected_registers() {
    let cconv = CallingConvention {
        name: String::from("__fastcall"),
        parameter_register: vec![String::from("RCX"), String::from("RDX")],
        return_register: vec![String::from("RAX")],
        unaffected_register: vec![String::from("RBX"), String::from("RBP")],
        killed_by_call_register: vec![String::from("R10")],
    };
    assert_eq!(
        cconv.to_ir_calling_convention(),
        IrCallingConvention {
            name: String::from("__fastcall"),
            parameter_register: vec![String::from("RCX"), String::from("RDX")],
            return_register: vec![String::from("RAX")],
            callee_saved_register: vec![String::from("RBX"), String::from("RBP")],
        }
    );
    let lifted = lift_calling_conventions(&vec![cconv.clone(), cconv]);
    assert_eq!(lifted.len(), 2);
    assert_eq!(lifted[0], lifted[1]);
    assert_eq!(lifted[0].name, "__fastcall");
}

#[test]
fn image_base_offset_examples() {
    assert_eq!(compute_address_base_offset("0x1000", 0), Ok(0x1000));
    assert_eq!(
        compute_address_base_offset("0x401000", 0x400000),
        Ok(0x1000)
    );
}

#[test]
fn image_base_offset_without_marker() {
    assert_eq!(compute_address_base_offset("10000", 0), Ok(0x10000));
    assert_eq!(compute_address_base_offset("10000", 0x10000), Ok(0));
    assert_eq!(
        compute_address_base_offset("ffffffffffffffff", 1),
        Ok(u64::MAX - 1)
    );
}

#[test]
fn image_base_below_binary_base_fails() {
    assert_eq!(
        compute_address_base_offset("0x1000", 0x1001),
        Err(LiftError::ImageBase)
    );
    assert_eq!(
        compute_address_base_offset("0", u64::MAX),
        Err(LiftError::ImageBase)
    );
}

#[test]
fn image_base_must_be_hexadecimal() {
    assert_eq!(
        compute_address_base_offset("", 0),
        Err(LiftError::InvalidHex)
    );
    assert_eq!(
        compute_address_base_offset("image", 0),
        Err(LiftError::InvalidHex)
    );
    assert_eq!(
        compute_address_base_offset("10000000000000000", 0),
        Err(LiftError::InvalidHex)
    );
}

#[test]
fn program_lifts_subs_symbols_and_offset() {
    let program = pg_program(
        vec![
            pg_sub("sub_1000", "1000", vec![pg_block("blk_1000", "1000")]),
            pg_sub(
                "sub_2000",
                "2000",
                vec![pg_block("blk_1800", "1800"), pg_block("blk_2000", "2000")],
            ),
        ],
        vec![pg_symbol(vec![pg_register_arg("RDI", ArgIntent::INPUT)])],
        "0x401000",
    );
    let lifted = program.into_ir_program(0x400000).unwrap();
    assert_eq!(lifted.address_base_offset, 0x1000);
    assert_eq!(lifted.entry_points, vec![pg_tid("sub_1000", "1000")]);
    assert_eq!(lifted.subs.len(), 2);
    assert_eq!(lifted.subs[0].tid, pg_tid("sub_1000", "1000"));
    assert_eq!(lifted.subs[1].term.blocks[0].tid, pg_tid("blk_2000", "2000"));
    assert_eq!(lifted.subs[1].term.blocks[1].tid, pg_tid("blk_1800", "1800"));
    assert_eq!(lifted.extern_symbols.len(), 1);
    assert_eq!(lifted.extern_symbols[0].parameters.len(), 1);
}

#[test]
fn program_reports_sub_error_first() {
    let program = pg_program(
        vec![pg_sub(
            "sub_2000",
            "2000",
            vec![pg_block("blk_1800", "1800")],
        )],
        vec![pg_symbol(vec![Arg {
            var: None,
            location: None,
            intent: ArgIntent::INPUT,
        }])],
        "nothex",
    );
    assert_eq!(
        program.into_ir_program(0),
        Err(LiftError::MissingEntryBlock)
    );
}

#[test]
fn program_reports_symbol_error_before_image_base() {
    let program = pg_program(
        Vec::new(),
        vec![pg_symbol(vec![Arg {
            var: None,
            location: None,
            intent: ArgIntent::INPUT,
        }])],
        "nothex",
    );
    assert_eq!(program.into_ir_program(0), Err(LiftError::ArgumentShape));
}

#[test]
fn program_reports_image_base_error_last() {
    let program = pg_program(Vec::new(), Vec::new(), "nothex");
    assert_eq!(program.into_ir_program(0), Err(LiftError::InvalidHex));
    let below = pg_program(Vec::new(), Vec::new(), "1000");
    assert_eq!(below.into_ir_program(0x2000), Err(LiftError::ImageBase));
}

#[test]
fn lists_are_lifted_in_order() {
    let subs = vec![
        pg_sub("a", "1", Vec::new()),
        pg_sub("b", "2", Vec::new()),
        pg_sub("c", "3", Vec::new()),
    ];
    let lifted = lift_subs(&subs).unwrap();
    let names: Vec<&str> = lifted.iter().map(|s| s.term.name.as_str()).collect();
    assert_eq!(names, vec!["a", "b", "c"]);
    let symbols = vec![pg_symbol(Vec::new()), pg_symbol(Vec::new())];
    assert_eq!(lift_symbols(&symbols).unwrap().len(), 2);
    let tids = vec![pg_tid("a", "1"), pg_tid("b", "2")];
    assert_eq!(clone_tids(&tids), tids);
}

#[test]
fn project_lifts_architecture_data() {
    let mut project = pg_project(pg_program(Vec::new(), Vec::new(), "0"), Vec::new());
    project.register_calling_convention = vec![CallingConvention {
        name: String::from("default"),
        parameter_register: vec![String::from("RDI")],
        return_register: vec![String::from("RAX")],
        unaffected_register: vec![String::from("RBX")],
        killed_by_call_register: Vec::new(),
    }];
    let lifted = project.into_ir_project(0).unwrap();
    assert_eq!(lifted.cpu_architecture, "x86_64");
    assert_eq!(lifted.stack_pointer_register, pg_ir_reg("RSP", 8));
    assert_eq!(lifted.program.tid, pg_tid("prog", "UNKNOWN"));
    assert_eq!(lifted.program.term.address_base_offset, 0);
    assert_eq!(lifted.calling_conventions.len(), 1);
    assert_eq!(
        lifted.calling_conventions[0].callee_saved_register,
        vec![String::from("RBX")]
    );
}

#[test]
fn project_needs_a_named_stack_pointer() {
    let mut project = pg_project(pg_program(Vec::new(), Vec::new(), "0"), Vec::new());
    project.stack_pointer_register = Variable::new_const("10", ByteSize::new(8));
    assert_eq!(project.into_ir_project(0), Err(LiftError::OperandShape));
}

#[test]
fn project_with_inconsistent_register_table_fails() {
    let orphan = RegisterProperties {
        register: String::from("EAX"),
        base_register: String::from("RAX"),
        lsb: ByteSize::new(0),
        size: ByteSize::new(4),
    };
    let project = pg_project(pg_program(Vec::new(), Vec::new(), "0"), vec![orphan]);
    assert_eq!(project.into_ir_project(0), Err(LiftError::RegisterTable));
}

#[test]
fn program_error_comes_before_register_table() {
    let orphan = RegisterProperties {
        register: String::from("EAX"),
        base_register: String::from("RAX"),
        lsb: ByteSize::new(0),
        size: ByteSize::new(4),
    };
    let project = pg_project(pg_program(Vec::new(), Vec::new(), "zz"), vec![orphan]);
    assert_eq!(project.into_ir_project(0), Err(LiftError::InvalidHex));
}

#[test]
fn register_table_error_comes_before_stack_pointer() {
    let orphan = RegisterProperties {
        register: String::from("EAX"),
        base_register: String::from("RAX"),
        lsb: ByteSize::new(0),
        size: ByteSize::new(4),
    };
    let mut project = pg_project(pg_program(Vec::new(), Vec::new(), "0"), vec![orphan]);
    project.stack_pointer_register = Variable::new_const("10", ByteSize::new(8));
    assert_eq!(project.into_ir_project(0), Err(LiftError::RegisterTable));
}

#[test]
fn malformed_jump_fails_the_whole_project() {
    let mut block = pg_block("blk_1000", "1000");
    block.term.jmps.push(Term {
        tid: pg_tid("instr_1000_0", "1000"),
        term: Jmp {
            mnemonic: JmpType::CALL,
            goto: None,
            call: None,
            condition: None,
            target_hints: None,
        },
    });
    let project = pg_project(
        pg_program(
            vec![
                pg_sub("sub_0", "0", Vec::new()),
                pg_sub("sub_1000", "1000", vec![block]),
            ],
            Vec::new(),
            "0",
        ),
        Vec::new(),
    );
    assert_eq!(project.into_ir_project(0), Err(LiftError::MissingCall));
}
