use pcode_lift::bitvector::ByteSize;
use pcode_lift::log::LogLevel;
use pcode_lift::pcode::block::{find_entry, Blk, Sub};
use pcode_lift::pcode::instruction::{Call, Def, Jmp, JmpType, Label};
use pcode_lift::pcode::operand::{Expression, ExpressionType, Variable};
use pcode_lift::pcode::program::{Program, Project};
use pcode_lift::tid::{Term, Tid};

fn nm_reg(name: &str, size: u64) -> Variable {
    Variable {
        name: Some(String::from(name)),
        value: None,
        address: None,
        size: ByteSize::new(size),
        is_virtual: false,
    }
}

fn nm_mem(address: &str, size: u64) -> Variable {
    Variable {
        name: None,
        value: None,
        address: Some(String::from(address)),
        size: ByteSize::new(size),
        is_virtual: false,
    }
}

fn nm_tid(id: &str, address: &str) -> Tid {
    Tid {
        id: String::from(id),
        address: String::from(address),
    }
}

fn nm_def(
    id: &str,
    lhs: Option<Variable>,
    mnemonic: ExpressionType,
    input0: Option<Variable>,
    input1: Option<Variable>,
    input2: Option<Variable>,
) -> Term<Def> {
    Term {
        tid: nm_tid(id, "1000"),
        term: Def {
            lhs,
            rhs: Expression {
                mnemonic,
                input0,
                input1,
                input2,
            },
        },
    }
}

fn nm_load(id: &str, temp: &str, size: u64, address: &str, pointer: u64) -> Term<Def> {
    Term {
        tid: nm_tid(id, "1000"),
        term: Def {
            lhs: Some(Variable::new_virtual(temp, ByteSize::new(size))),
            rhs: Expression {
                mnemonic: ExpressionType::LOAD,
                input0: None,
                input1: Some(Variable::new_const(address, ByteSize::new(pointer))),
                input2: None,
            },
        },
    }
}

fn nm_jmp(id: &str, mnemonic: JmpType, goto: Option<Label>, call: Option<Call>) -> Term<Jmp> {
    Term {
        tid: nm_tid(id, "1000"),
        term: Jmp {
            mnemonic,
            goto,
            call,
            condition: None,
            target_hints: None,
        },
    }
}

fn nm_block(id: &str, address: &str) -> Term<Blk> {
    Term {
        tid: nm_tid(id, address),
        term: Blk {
            defs: Vec::new(),
            jmps: Vec::new(),
        },
    }
}

fn nm_sub(id: &str, address: &str, blocks: Vec<Term<Blk>>) -> Term<Sub> {
    Term {
        tid: nm_tid(id, address),
        term: Sub {
            name: String::from("fn_") + id,
            blocks,
        },
    }
}

fn nm_project(subs: Vec<Term<Sub>>, pointer: u64) -> Project {
    Project {
        program: Term {
            tid: nm_tid("prog", "UNKNOWN"),
            term: Program {
                subs,
                extern_symbols: Vec::new(),
                entry_points: Vec::new(),
                image_base: String::from("10000"),
            },
        },
        cpu_architecture: String::from("x86_64"),
        stack_pointer_register: nm_reg("RSP", pointer),
        register_properties: Vec::new(),
        register_calling_convention: Vec::new(),
    }
}

fn nm_reads_memory(operand: &Option<Variable>) -> bool {
    match operand {
        Some(var) => var.address.is_some(),
        None => false,
    }
}

#[test]
fn block_without_memory_operands_is_unchanged() {
    let mut blk = Blk {
        defs: vec![
            nm_def(
                "d0",
                Some(nm_reg("RAX", 8)),
                ExpressionType::COPY,
                Some(nm_reg("RBX", 8)),
                None,
                None,
            ),
            nm_def(
                "d1",
                None,
                ExpressionType::STORE,
                None,
                Some(nm_reg("RSP", 8)),
                Some(nm_reg("RAX", 8)),
            ),
        ],
        jmps: vec![nm_jmp(
            "j0",
            JmpType::BRANCHIND,
            Some(Label::Indirect(nm_reg("RAX", 8))),
            None,
        )],
    };
    let before = blk.clone();
    blk.add_load_defs_for_implicit_ram_access(ByteSize::new(8));
    assert_eq!(blk, before);
}

#[test]
fn memory_operand_in_slot_zero_gets_a_load() {
    let mut blk = Blk {
        defs: vec![nm_def(
            "d0",
            Some(nm_reg("EAX", 4)),
            ExpressionType::COPY,
            Some(nm_mem("601040", 4)),
            None,
            None,
        )],
        jmps: Vec::new(),
    };
    blk.add_load_defs_for_implicit_ram_access(ByteSize::new(8));
    assert_eq!(
        blk.defs,
        vec![
            nm_load("d0_load0", "$load_temp0", 4, "601040", 8),
            nm_def(
                "d0",
                Some(nm_reg("EAX", 4)),
                ExpressionType::COPY,
                Some(Variable::new_virtual("$load_temp0", ByteSize::new(4))),
                None,
                None,
            ),
        ]
    );
}

#[test]
fn every_slot_gets_its_own_load_in_slot_order() {
    let mut blk = Blk {
        defs: vec![
            nm_def(
                "first",
                Some(nm_reg("RCX", 8)),
                ExpressionType::COPY,
                Some(nm_reg("RDX", 8)),
                None,
                None,
            ),
            nm_def(
                "d",
                Some(nm_reg("RAX", 8)),
                ExpressionType::INT_ADD,
                Some(nm_mem("1000", 8)),
                Some(nm_mem("2000", 2)),
                Some(nm_mem("3000", 1)),
            ),
            nm_def(
                "last",
                Some(nm_reg("RCX", 8)),
                ExpressionType::COPY,
                Some(nm_reg("RAX", 8)),
                None,
                None,
            ),
        ],
        jmps: Vec::new(),
    };
    blk.add_load_defs_for_implicit_ram_access(ByteSize::new(4));
    assert_eq!(
        blk.defs,
        vec![
            nm_def(
                "first",
                Some(nm_reg("RCX", 8)),
                ExpressionType::COPY,
                Some(nm_reg("RDX", 8)),
                None,
                None,
            ),
            nm_load("d_load0", "$load_temp0", 8, "1000", 4),
            nm_load("d_load1", "$load_temp1", 2, "2000", 4),
            nm_load("d_load2", "$load_temp2", 1, "3000", 4),
            nm_def(
                "d",
                Some(nm_reg("RAX", 8)),
                ExpressionType::INT_ADD,
                Some(Variable::new_virtual("$load_temp0", ByteSize::new(8))),
                Some(Variable::new_virtual("$load_temp1", ByteSize::new(2))),
                Some(Variable::new_virtual("$load_temp2", ByteSize::new(1))),
            ),
            nm_def(
                "last",
                Some(nm_reg("RCX", 8)),
                ExpressionType::COPY,
                Some(nm_reg("RAX", 8)),
                None,
                None,
            ),
        ]
    );
}

#[test]
fn only_the_slot_that_reads_memory_is_rewritten() {
    let mut blk = Blk {
        defs: vec![nm_def(
            "d",
            Some(nm_reg("RAX", 8)),
            ExpressionType::INT_ADD,
            Some(nm_reg("RBX", 8)),
            Some(nm_mem("2000", 8)),
            None,
        )],
        jmps: Vec::new(),
    };
    blk.add_load_defs_for_implicit_ram_access(ByteSize::new(8));
    assert_eq!(
        blk.defs,
        vec![
            nm_load("d_load1", "$load_temp1", 8, "2000", 8),
            nm_def(
                "d",
                Some(nm_reg("RAX", 8)),
                ExpressionType::INT_ADD,
                Some(nm_reg("RBX", 8)),
                Some(Variable::new_virtual("$load_temp1", ByteSize::new(8))),
                None,
            ),
        ]
    );
}

#[test]
fn target_that_stands_for_memory_is_left_alone() {
    let mut blk = Blk {
        defs: vec![nm_def(
            "d",
            Some(nm_mem("601040", 4)),
            ExpressionType::COPY,
            Some(nm_reg("EAX", 4)),
            None,
            None,
        )],
        jmps: Vec::new(),
    };
    let before = blk.clone();
    blk.add_load_defs_for_implicit_ram_access(ByteSize::new(8));
    assert_eq!(blk, before);
}

#[test]
fn indirect_branch_through_memory_gets_a_load_at_the_end() {
    let mut blk = Blk {
        defs: vec![nm_def(
            "d0",
            Some(nm_reg("EAX", 4)),
            ExpressionType::COPY,
            Some(nm_mem("601040", 4)),
            None,
            None,
        )],
        jmps: vec![nm_jmp(
            "j0",
            JmpType::BRANCHIND,
            Some(Label::Indirect(nm_mem("602000", 8))),
            None,
        )],
    };
    blk.add_load_defs_for_implicit_ram_access(ByteSize::new(8));
    assert_eq!(
        blk.defs,
        vec![
            nm_load("d0_load0", "$load_temp0", 4, "601040", 8),
            nm_def(
                "d0",
                Some(nm_reg("EAX", 4)),
                ExpressionType::COPY,
                Some(Variable::new_virtual("$load_temp0", ByteSize::new(4))),
                None,
                None,
            ),
            nm_load("j0_load", "$load_temp0", 8, "602000", 8),
        ]
    );
    assert_eq!(
        blk.jmps,
        vec![nm_jmp(
            "j0",
            JmpType::BRANCHIND,
            Some(Label::Indirect(Variable::new_virtual(
                "$load_temp0",
                ByteSize::new(8)
            ))),
            None,
        )]
    );
}

#[test]
fn indirect_call_through_memory_is_numbered_by_its_position() {
    let call = Call {
        target: Some(Label::Indirect(nm_mem("603000", 8))),
        return_: Some(Label::Direct(nm_tid("blk_1010", "1010"))),
        call_string: None,
    };
    let mut blk = Blk {
        defs: Vec::new(),
        jmps: vec![
            nm_jmp(
                "j0",
                JmpType::CBRANCH,
                Some(Label::Direct(nm_tid("blk_2000", "2000"))),
                None,
            ),
            nm_jmp("j1", JmpType::CALLIND, None, Some(call)),
        ],
    };
    blk.add_load_defs_for_implicit_ram_access(ByteSize::new(8));
    assert_eq!(
        blk.defs,
        vec![nm_load("j1_load", "$load_temp1", 8, "603000", 8)]
    );
    assert_eq!(
        blk.jmps[1],
        nm_jmp(
            "j1",
            JmpType::CALLIND,
            None,
            Some(Call {
                target: Some(Label::Indirect(Variable::new_virtual(
                    "$load_temp1",
                    ByteSize::new(8)
                ))),
                return_: Some(Label::Direct(nm_tid("blk_1010", "1010"))),
                call_string: None,
            }),
        )
    );
    assert_eq!(
        blk.jmps[0],
        nm_jmp(
            "j0",
            JmpType::CBRANCH,
            Some(Label::Direct(nm_tid("blk_2000", "2000"))),
            None,
        )
    );
}

#[test]
fn other_jumps_through_memory_are_left_alone() {
    let mut blk = Blk {
        defs: Vec::new(),
        jmps: vec![
            nm_jmp(
                "j0",
                JmpType::RETURN,
                Some(Label::Indirect(nm_mem("602000", 8))),
                None,
            ),
            nm_jmp(
                "j1",
                JmpType::BRANCHIND,
                Some(Label::Direct(nm_tid("blk_2000", "2000"))),
                None,
            ),
            nm_jmp("j2", JmpType::CALLIND, None, None),
            nm_jmp("j3", JmpType::BRANCHIND, None, None),
        ],
    };
    let before = blk.clone();
    blk.add_load_defs_for_implicit_ram_access(ByteSize::new(8));
    assert_eq!(blk, before);
}

#[test]
fn no_operand_reads_memory_after_the_pass() {
    let mut blk = Blk {
        defs: vec![
            nm_def(
                "a",
                Some(nm_reg("RAX", 8)),
                ExpressionType::INT_ADD,
                Some(nm_mem("1000", 8)),
                Some(nm_reg("RBX", 8)),
                Some(nm_mem("3000", 1)),
            ),
            nm_def(
                "b",
                None,
                ExpressionType::STORE,
                None,
                Some(nm_mem("2000", 8)),
                Some(nm_mem("2008", 8)),
            ),
        ],
        jmps: vec![nm_jmp(
            "j",
            JmpType::BRANCHIND,
            Some(Label::Indirect(nm_mem("602000", 8))),
            None,
        )],
    };
    blk.add_load_defs_for_implicit_ram_access(ByteSize::new(8));
    assert_eq!(blk.defs.len(), 7);
    for def in blk.defs.iter() {
        assert!(!nm_reads_memory(&def.term.rhs.input0));
        assert!(!nm_reads_memory(&def.term.rhs.input1));
        assert!(!nm_reads_memory(&def.term.rhs.input2));
    }
    match &blk.jmps[0].term.goto {
        Some(Label::Indirect(var)) => assert!(var.address.is_none()),
        _ => panic!("the jump lost its label"),
    }
    let ids: Vec<&str> = blk.defs.iter().map(|d| d.tid.id.as_str()).collect();
    assert_eq!(
        ids,
        vec!["a_load0", "a_load2", "a", "b_load1", "b_load2", "b", "j_load"]
    );
}

#[test]
fn entry_search_finds_first_match() {
    let sub = nm_sub(
        "s",
        "2000",
        vec![
            nm_block("a", "1000"),
            nm_block("b", "2000"),
            nm_block("c", "2000"),
        ],
    );
    assert_eq!(find_entry(&sub), Some(1));
    let none = nm_sub("s", "9000", vec![nm_block("a", "1000")]);
    assert_eq!(find_entry(&none), None);
    assert_eq!(find_entry(&nm_sub("s", "1", Vec::new())), None);
}

#[test]
fn function_without_entry_block_loses_its_code_and_is_logged_once() {
    let mut project = nm_project(
        vec![nm_sub(
            "sub_2000",
            "2000",
            vec![nm_block("blk_1000", "1000"), nm_block("blk_3000", "3000")],
        )],
        8,
    );
    let logs = project.normalize();
    assert!(project.program.term.subs[0].term.blocks.is_empty());
    assert_eq!(project.program.term.subs[0].tid, nm_tid("sub_2000", "2000"));
    assert_eq!(project.program.term.subs[0].term.name, "fn_sub_2000");
    assert_eq!(logs.len(), 1);
    assert_eq!(logs[0].level, LogLevel::Warning);
    assert_eq!(
        logs[0].text,
        "Starting block of function fn_sub_2000 (sub_2000) not found."
    );
    assert_eq!(logs[0].location, Some(nm_tid("sub_2000", "2000")));
}

#[test]
fn function_with_entry_block_elsewhere_is_kept_and_not_logged() {
    let mut project = nm_project(
        vec![nm_sub(
            "sub_2000",
            "2000",
            vec![nm_block("blk_1000", "1000"), nm_block("blk_2000", "2000")],
        )],
        8,
    );
    let before = project.clone();
    let logs = project.normalize();
    assert!(logs.is_empty());
    assert_eq!(project, before);
}

#[test]
fn function_without_code_is_not_logged() {
    let mut project = nm_project(vec![nm_sub("sub_2000", "2000", Vec::new())], 8);
    let logs = project.normalize();
    assert!(logs.is_empty());
    assert!(project.program.term.subs[0].term.blocks.is_empty());
}

#[test]
fn warnings_come_in_the_order_of_the_functions() {
    let mut project = nm_project(
        vec![
            nm_sub("a", "1000", vec![nm_block("x", "1")]),
            nm_sub("b", "2000", vec![nm_block("y", "2000")]),
            nm_sub("c", "3000", vec![nm_block("z", "3")]),
            nm_sub("d", "4000", Vec::new()),
        ],
        8,
    );
    let logs = project.normalize();
    let texts: Vec<&str> = logs.iter().map(|l| l.text.as_str()).collect();
    assert_eq!(
        texts,
        vec![
            "Starting block of function fn_a (a) not found.",
            "Starting block of function fn_c (c) not found.",
        ]
    );
    assert!(project.program.term.subs[0].term.blocks.is_empty());
    assert_eq!(project.program.term.subs[1].term.blocks.len(), 1);
    assert!(project.program.term.subs[2].term.blocks.is_empty());
}

#[test]
fn normalize_uses_the_size_of_the_stack_pointer() {
    let mut block = nm_block("blk_1000", "1000");
    block.term.defs.push(nm_def(
        "d0",
        Some(nm_reg("EAX", 4)),
        ExpressionType::COPY,
        Some(nm_mem("601040", 2)),
        None,
        None,
    ));
    let mut project = nm_project(vec![nm_sub("sub_1000", "1000", vec![block])], 4);
    let logs = project.normalize();
    assert!(logs.is_empty());
    let defs = &project.program.term.subs[0].term.blocks[0].term.defs;
    assert_eq!(defs.len(), 2);
    assert_eq!(defs[0], nm_load("d0_load0", "$load_temp0", 2, "601040", 4));
    assert_eq!(project.cpu_architecture, "x86_64");
    assert_eq!(project.program.term.image_base, "10000");
}

#[test]
fn normalize_is_idempotent() {
    let mut block = nm_block("blk_1000", "1000");
    block.term.defs.push(nm_def(
        "d0",
        Some(nm_reg("EAX", 4)),
        ExpressionType::COPY,
        Some(nm_mem("601040", 2)),
        None,
        None,
    ));
    let mut project = nm_project(
        vec![
            nm_sub("sub_1000", "1000", vec![block]),
            nm_sub("dead", "5000", vec![nm_block("blk_1", "1")]),
        ],
        8,
    );
    let first = project.normalize();
    assert_eq!(first.len(), 1);
    let once = project.clone();
    let second = project.normalize();
    assert!(second.is_empty());
    assert_eq!(project, once);
}
