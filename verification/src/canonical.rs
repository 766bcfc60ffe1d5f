//! Sub-register canonicalization of whole blocks, functions and programs.

use crate::ir::instruction::{
    IrBlk, IrBlkView, IrDef, IrDefView, IrJmp, IrJmpView, IrSub, IrSubView,
};
use crate::ir::program::IrProgramView;
use crate::pcode::operand::{RegisterProperties, RegisterPropertiesView};
use crate::subregister::{
    canonical_def, canonical_expression, canonicalize_def, canonicalize_expression,
    def_is_canonical, has_zero_extension, is_followed_by_zero_extension, reads_sub_register,
    table_is_consistent,
};
use crate::text::clone_texts;
use crate::tid::{Term, TermView, Tid, TidView};
use vstd::prelude::*;

verus! {

/// The instruction that follows the one at position `i`, if there is one.
pub open spec fn next_def(defs: Seq<TermView<IrDefView>>, i: int) -> Option<
    TermView<IrDefView>,
> {
    if 0 <= i && i + 1 < defs.len() {
        Some(defs[i + 1])
    } else {
        None
    }
}

/// The identifier that the instruction at position `i` marks as
/// redundant: that of the instruction which follows it, where that one
/// assigns the zero extension of the sub-register that the instruction
/// at `i` writes to the base register.
pub open spec fn marked_at(
    defs: Seq<TermView<IrDefView>>,
    i: int,
    table: Seq<RegisterPropertiesView>,
) -> Option<TidView> {
    if 0 <= i < defs.len() && is_followed_by_zero_extension(
        defs[i].term,
        next_def(defs, i),
        table,
    ) {
        Some(defs[i + 1].tid)
    } else {
        None
    }
}

/// Some instruction of the block marks the identifier as redundant.
pub open spec fn is_redundant(
    defs: Seq<TermView<IrDefView>>,
    table: Seq<RegisterPropertiesView>,
    tid: TidView,
) -> bool {
    exists|i: int| #[trigger] marked_at(defs, i, table) == Some(tid)
}

/// The instruction at position `i` in canonical form, under its own
/// identifier.
pub open spec fn rewritten_def(
    defs: Seq<TermView<IrDefView>>,
    i: int,
    table: Seq<RegisterPropertiesView>,
) -> TermView<IrDefView> {
    TermView { tid: defs[i].tid, term: canonical_def(defs[i].term, next_def(defs, i), table) }
}

/// The instructions of a block in canonical form, without those whose
/// identifier is marked as redundant.
pub open spec fn canonical_defs(
    defs: Seq<TermView<IrDefView>>,
    table: Seq<RegisterPropertiesView>,
) -> Seq<TermView<IrDefView>> {
    Seq::new(defs.len(), |i: int| rewritten_def(defs, i, table)).filter(
        |d: TermView<IrDefView>| !is_redundant(defs, table, d.tid),
    )
}

/// The jump in canonical form: the expressions that it evaluates are
/// canonical.
pub open spec fn canonical_jmp(jmp: IrJmpView, table: Seq<RegisterPropertiesView>) -> IrJmpView {
    match jmp {
        IrJmpView::BranchInd(target) => IrJmpView::BranchInd(canonical_expression(target, table)),
        IrJmpView::CBranch { target, condition } => IrJmpView::CBranch {
            target,
            condition: canonical_expression(condition, table),
        },
        IrJmpView::CallInd { target, return_ } => IrJmpView::CallInd {
            target: canonical_expression(target, table),
            return_,
        },
        IrJmpView::Return(target) => IrJmpView::Return(canonical_expression(target, table)),
        _ => jmp,
    }
}

/// The jump term in canonical form.
pub open spec fn canonical_jmp_term(
    jmp: TermView<IrJmpView>,
    table: Seq<RegisterPropertiesView>,
) -> TermView<IrJmpView> {
    TermView { tid: jmp.tid, term: canonical_jmp(jmp.term, table) }
}

/// The block in canonical form.
pub open spec fn canonical_blk(blk: IrBlkView, table: Seq<RegisterPropertiesView>) -> IrBlkView {
    IrBlkView {
        defs: canonical_defs(blk.defs, table),
        jmps: blk.jmps.map_values(|j: TermView<IrJmpView>| canonical_jmp_term(j, table)),
        indirect_jmp_targets: blk.indirect_jmp_targets,
    }
}

/// The block term in canonical form.
pub open spec fn canonical_blk_term(
    blk: TermView<IrBlkView>,
    table: Seq<RegisterPropertiesView>,
) -> TermView<IrBlkView> {
    TermView { tid: blk.tid, term: canonical_blk(blk.term, table) }
}

/// The function in canonical form: each of its blocks is canonical.
pub open spec fn canonical_sub(
    sub: TermView<IrSubView>,
    table: Seq<RegisterPropertiesView>,
) -> TermView<IrSubView> {
    TermView {
        tid: sub.tid,
        term: IrSubView {
            name: sub.term.name,
            blocks: sub.term.blocks.map_values(
                |b: TermView<IrBlkView>| canonical_blk_term(b, table),
            ),
        },
    }
}

/// The program in canonical form: each of its functions is canonical.
pub open spec fn canonical_program(
    program: IrProgramView,
    table: Seq<RegisterPropertiesView>,
) -> IrProgramView {
    IrProgramView {
        subs: program.subs.map_values(|s: TermView<IrSubView>| canonical_sub(s, table)),
        ..program
    }
}

/// The jump reads no sub-register.
pub open spec fn jmp_is_canonical(jmp: IrJmpView, table: Seq<RegisterPropertiesView>) -> bool {
    match jmp {
        IrJmpView::BranchInd(target) => !reads_sub_register(target, table),
        IrJmpView::CBranch { target, condition } => !reads_sub_register(condition, table),
        IrJmpView::CallInd { target, return_ } => !reads_sub_register(target, table),
        IrJmpView::Return(target) => !reads_sub_register(target, table),
        _ => true,
    }
}

/// No instruction and no jump of the block writes or reads a
/// sub-register.
pub open spec fn blk_is_canonical(blk: IrBlkView, table: Seq<RegisterPropertiesView>) -> bool {
    &&& forall|i: int|
        0 <= i < blk.defs.len() ==> def_is_canonical(#[trigger] blk.defs[i].term, table)
    &&& forall|i: int|
        0 <= i < blk.jmps.len() ==> jmp_is_canonical(#[trigger] blk.jmps[i].term, table)
}

/// No block of a function of the program writes or reads a sub-register.
pub open spec fn program_is_canonical(
    program: IrProgramView,
    table: Seq<RegisterPropertiesView>,
) -> bool {
    forall|i: int, j: int|
        0 <= i < program.subs.len() && 0 <= j < program.subs[i].term.blocks.len()
            ==> blk_is_canonical((#[trigger] program.subs[i].term.blocks[j]).term, table)
}

/// Tells whether the list holds the identifier.
fn holds_tid(tids: &Vec<Tid>, tid: &Tid) -> (r: bool)
    ensures
        r == tids.deep_view().contains(tid.deep_view()),
{
    let mut i: usize = 0;
    while i < tids.len()
        invariant
            i <= tids.len(),
            forall|k: int| 0 <= k < i ==> tids.deep_view()[k] != tid.deep_view(),
        decreases tids.len() - i,
    {
        assert(tids.deep_view()[i as int] == tids[i as int].deep_view());
        if tids[i].id == tid.id && tids[i].address == tid.address {
            return true;
        }
        i += 1;
    }
    false
}

/// Collects the identifiers that the instructions of a block mark as
/// redundant.
fn collect_redundant(defs: &Vec<Term<IrDef>>, table: &Vec<RegisterProperties>) -> (r: Vec<Tid>)
    ensures
        forall|tid: TidView|
            r.deep_view().contains(tid) <==> is_redundant(
                defs.deep_view(),
                table.deep_view(),
                tid,
            ),
{
    let ghost view = defs.deep_view();
    let ghost regs = table.deep_view();
    let mut marks: Vec<Tid> = Vec::new();
    let ghost mut sources: Seq<int> = Seq::empty();
    let n = defs.len();
    let mut i: usize = 0;
    while i < n
        invariant
            i <= n,
            n == defs.len(),
            view == defs.deep_view(),
            regs == table.deep_view(),
            sources.len() == marks.len(),
            forall|k: int|
                0 <= k < marks.len() ==> marked_at(view, #[trigger] sources[k], regs) == Some(
                    marks.deep_view()[k],
                ),
            forall|j: int|
                0 <= j < i && marked_at(view, j, regs) is Some ==> marks.deep_view().contains(
                    (#[trigger] marked_at(view, j, regs))->Some_0,
                ),
        decreases n - i,
    {
        let ghost before = marks.deep_view();
        let next: Option<&Term<IrDef>> = if i + 1 < n {
            Some(&defs[i + 1])
        } else {
            None
        };
        assert(next.deep_view() == next_def(view, i as int));
        assert(view[i as int].term == defs[i as int].term.deep_view());
        if has_zero_extension(&defs[i].term, next, table) {
            marks.push(defs[i + 1].tid.clone());
            proof {
                sources = sources.push(i as int);
                assert(marks.deep_view() =~= before.push(view[i + 1].tid));
                assert forall|j: int|
                    0 <= j < i + 1 && marked_at(view, j, regs) is Some implies marks.deep_view().contains(
                    (#[trigger] marked_at(view, j, regs))->Some_0,
                ) by {
                    if j < i {
                        let t = marked_at(view, j, regs)->Some_0;
                        let k = choose|k: int| 0 <= k < before.len() && before[k] == t;
                        assert(marks.deep_view()[k] == t);
                    } else {
                        assert(marks.deep_view()[marks.len() - 1] == view[i + 1].tid);
                    }
                }
            }
        }
        i += 1;
    }
    proof {
        assert forall|tid: TidView| marks.deep_view().contains(tid) <==> is_redundant(
            view,
            regs,
            tid,
        ) by {
            if marks.deep_view().contains(tid) {
                let k = choose|k: int| 0 <= k < marks.deep_view().len() && marks.deep_view()[k] == tid;
                assert(marked_at(view, sources[k], regs) == Some(tid));
            }
            if is_redundant(view, regs, tid) {
                let j = choose|j: int| marked_at(view, j, regs) == Some(tid);
                assert(marked_at(view, j, regs) is Some);
            }
        }
    }
    marks
}

/// Brings the instructions of a block into canonical form and leaves out
/// those that have become redundant.
pub fn canonicalize_defs(defs: &Vec<Term<IrDef>>, table: &Vec<RegisterProperties>) -> (r: Vec<
    Term<IrDef>,
>)
    requires
        table_is_consistent(table.deep_view()),
    ensures
        r.deep_view() == canonical_defs(defs.deep_view(), table.deep_view()),
{
    let ghost view = defs.deep_view();
    let ghost regs = table.deep_view();
    let ghost all = Seq::new(view.len(), |i: int| rewritten_def(view, i, regs));
    let ghost keep = |d: TermView<IrDefView>| !is_redundant(view, regs, d.tid);
    let marks = collect_redundant(defs, table);
    let mut out: Vec<Term<IrDef>> = Vec::new();
    let n = defs.len();
    let mut i: usize = 0;
    proof {
        assert(all.take(0).filter(keep) =~= Seq::<TermView<IrDefView>>::empty()) by {
            reveal(Seq::filter);
        }
        assert(out.deep_view() =~= all.take(0).filter(keep));
    }
    while i < n
        invariant
            i <= n,
            n == defs.len(),
            view == defs.deep_view(),
            regs == table.deep_view(),
            table_is_consistent(regs),
            all == Seq::new(view.len(), |i: int| rewritten_def(view, i, regs)),
            keep == |d: TermView<IrDefView>| !is_redundant(view, regs, d.tid),
            forall|tid: TidView| marks.deep_view().contains(tid) <==> is_redundant(view, regs, tid),
            out.deep_view() == all.take(i as int).filter(keep),
        decreases n - i,
    {
        let ghost before = out.deep_view();
        proof {
            all.lemma_take_succ_push(i as int);
            all.take(i as int).lemma_filter_push(all[i as int], keep);
            assert(view[i as int] == defs[i as int].deep_view());
        }
        if !holds_tid(&marks, &defs[i].tid) {
            let next: Option<&Term<IrDef>> = if i + 1 < n {
                Some(&defs[i + 1])
            } else {
                None
            };
            assert(next.deep_view() == next_def(view, i as int));
            let term = canonicalize_def(&defs[i].term, next, table);
            out.push(Term { tid: defs[i].tid.clone(), term });
            assert(out.deep_view() =~= before.push(all[i as int]));
        }
        i += 1;
    }
    assert(all.take(n as int) =~= all);
    out
}

/// A copy of an optional identifier.
fn clone_optional_tid(tid: &Option<Tid>) -> (r: Option<Tid>)
    ensures
        r == *tid,
{
    match tid {
        Some(t) => Some(t.clone()),
        None => None,
    }
}

/// Brings a jump into canonical form.
pub fn canonicalize_jmp(jmp: &IrJmp, table: &Vec<RegisterProperties>) -> (r: IrJmp)
    requires
        table_is_consistent(table.deep_view()),
    ensures
        r.deep_view() == canonical_jmp(jmp.deep_view(), table.deep_view()),
{
    match jmp {
        IrJmp::Branch(target) => IrJmp::Branch(target.clone()),
        IrJmp::BranchInd(target) => IrJmp::BranchInd(canonicalize_expression(target, table)),
        IrJmp::CBranch { target, condition } => IrJmp::CBranch {
            target: target.clone(),
            condition: canonicalize_expression(condition, table),
        },
        IrJmp::Call { target, return_ } => IrJmp::Call {
            target: target.clone(),
            return_: clone_optional_tid(return_),
        },
        IrJmp::CallInd { target, return_ } => IrJmp::CallInd {
            target: canonicalize_expression(target, table),
            return_: clone_optional_tid(return_),
        },
        IrJmp::Return(target) => IrJmp::Return(canonicalize_expression(target, table)),
        IrJmp::CallOther { description, return_ } => IrJmp::CallOther {
            description: description.clone(),
            return_: clone_optional_tid(return_),
        },
    }
}

/// Brings a block into canonical form.
pub fn canonicalize_blk(blk: &IrBlk, table: &Vec<RegisterProperties>) -> (r: IrBlk)
    requires
        table_is_consistent(table.deep_view()),
    ensures
        r.deep_view() == canonical_blk(blk.deep_view(), table.deep_view()),
{
    let ghost regs = table.deep_view();
    let ghost f = |j: TermView<IrJmpView>| canonical_jmp_term(j, regs);
    let defs = canonicalize_defs(&blk.defs, table);
    let mut jmps: Vec<Term<IrJmp>> = Vec::new();
    let mut i: usize = 0;
    while i < blk.jmps.len()
        invariant
            i <= blk.jmps.len(),
            regs == table.deep_view(),
            table_is_consistent(regs),
            jmps.len() == i,
            forall|k: int|
                0 <= k < i ==> (#[trigger] jmps[k]).deep_view() == canonical_jmp_term(
                    blk.jmps[k].deep_view(),
                    regs,
                ),
        decreases blk.jmps.len() - i,
    {
        let term = canonicalize_jmp(&blk.jmps[i].term, table);
        jmps.push(Term { tid: blk.jmps[i].tid.clone(), term });
        i += 1;
    }
    assert(jmps.deep_view() =~= blk.jmps.deep_view().map_values(f));
    IrBlk { defs, jmps, indirect_jmp_targets: clone_texts(&blk.indirect_jmp_targets) }
}

/// Brings a function into canonical form.
pub fn canonicalize_sub(sub: &Term<IrSub>, table: &Vec<RegisterProperties>) -> (r: Term<IrSub>)
    requires
        table_is_consistent(table.deep_view()),
    ensures
        r.deep_view() == canonical_sub(sub.deep_view(), table.deep_view()),
{
    let ghost regs = table.deep_view();
    let ghost f = |b: TermView<IrBlkView>| canonical_blk_term(b, regs);
    let mut blocks: Vec<Term<IrBlk>> = Vec::new();
    let mut i: usize = 0;
    while i < sub.term.blocks.len()
        invariant
            i <= sub.term.blocks.len(),
            regs == table.deep_view(),
            table_is_consistent(regs),
            blocks.len() == i,
            forall|k: int|
                0 <= k < i ==> (#[trigger] blocks[k]).deep_view() == canonical_blk_term(
                    sub.term.blocks[k].deep_view(),
                    regs,
                ),
        decreases sub.term.blocks.len() - i,
    {
        let term = canonicalize_blk(&sub.term.blocks[i].term, table);
        blocks.push(Term { tid: sub.term.blocks[i].tid.clone(), term });
        i += 1;
    }
    assert(blocks.deep_view() =~= sub.term.blocks.deep_view().map_values(f));
    Term { tid: sub.tid.clone(), term: IrSub { name: sub.term.name.clone(), blocks } }
}

/// Brings the functions of a program into canonical form.
pub fn canonicalize_subs(subs: &Vec<Term<IrSub>>, table: &Vec<RegisterProperties>) -> (r: Vec<
    Term<IrSub>,
>)
    requires
        table_is_consistent(table.deep_view()),
    ensures
        r.deep_view() == subs.deep_view().map_values(
            |s: TermView<IrSubView>| canonical_sub(s, table.deep_view()),
        ),
{
    let ghost regs = table.deep_view();
    let ghost f = |s: TermView<IrSubView>| canonical_sub(s, regs);
    let mut out: Vec<Term<IrSub>> = Vec::new();
    let mut i: usize = 0;
    while i < subs.len()
        invariant
            i <= subs.len(),
            regs == table.deep_view(),
            table_is_consistent(regs),
            out.len() == i,
            forall|k: int|
                0 <= k < i ==> (#[trigger] out[k]).deep_view() == canonical_sub(
                    subs[k].deep_view(),
                    regs,
                ),
        decreases subs.len() - i,
    {
        out.push(canonicalize_sub(&subs[i], table));
        i += 1;
    }
    assert(out.deep_view() =~= subs.deep_view().map_values(f));
    out
}

} // verus!
