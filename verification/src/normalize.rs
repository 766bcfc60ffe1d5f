//! The passes that run on P-Code before it is converted: memory reads that
//! hide in operands become loads of their own, and functions without an
//! entry block lose their code.

use crate::bitvector::ByteSize;
use crate::log::{LogLevel, LogMessage, LogMessageView};
use crate::pcode::block::{has_entry_block, is_entry_at, Blk, BlkView, Sub, SubView};
use crate::pcode::instruction::{
    clone_label, Call, CallView, Def, DefView, Jmp, JmpType, JmpView, Label, LabelView,
};
use crate::pcode::operand::{
    clone_operand, clone_text, Expression, ExpressionView, Variable, VariableView,
};
use crate::pcode::program::{Project, ProjectView, ProgramView};
use crate::text::{append_decimal, decimal_text};
use crate::tid::{Term, TermView, Tid, TidView};
use vstd::prelude::*;
use vstd::string::StringExecFns;

verus! {

/// The name of the temporary that the load with number `k` fills.
pub open spec fn load_temp_name(k: nat) -> Seq<char> {
    "$load_temp"@ + decimal_text(k)
}

/// What the identifier of a definition is extended by for the load of
/// its operand in slot `k`.
pub open spec fn slot_suffix(k: nat) -> Seq<char> {
    "_load"@ + decimal_text(k)
}

/// The operand is present and stands for memory at a fixed address.
pub open spec fn reads_memory(operand: Option<VariableView>) -> bool {
    operand is Some && operand->Some_0.address is Some
}

/// The operand as it stands after the pass: the temporary with number `k`
/// in place of an operand that stands for memory, and any other operand
/// as it was.
pub open spec fn explicit_operand(operand: Option<VariableView>, k: nat) -> Option<VariableView> {
    if reads_memory(operand) {
        Some(VariableView::new_virtual(load_temp_name(k), operand->Some_0.size))
    } else {
        operand
    }
}

/// The load that fills the temporary with number `k` from the memory that
/// the operand stands for, under the identifier `tid`; nothing for any
/// other operand.
pub open spec fn operand_load(
    tid: TidView,
    operand: Option<VariableView>,
    k: nat,
    pointer_size: ByteSize,
) -> Seq<TermView<DefView>> {
    if reads_memory(operand) {
        seq![
            TermView {
                tid,
                term: operand->Some_0.load_def(load_temp_name(k), pointer_size),
            },
        ]
    } else {
        Seq::empty()
    }
}

/// The definition with temporaries in place of the operands that stand
/// for memory.
pub open spec fn explicit_def(def: TermView<DefView>) -> TermView<DefView> {
    TermView {
        tid: def.tid,
        term: DefView {
            lhs: def.term.lhs,
            rhs: ExpressionView {
                mnemonic: def.term.rhs.mnemonic,
                input0: explicit_operand(def.term.rhs.input0, 0),
                input1: explicit_operand(def.term.rhs.input1, 1),
                input2: explicit_operand(def.term.rhs.input2, 2),
            },
        },
    }
}

/// What the pass puts in the place of one definition: the loads for its
/// slots 0, 1 and 2, as far as they stand for memory, and then the
/// definition itself, which reads the temporaries. The load for slot `k`
/// has the identifier of the definition, extended by `_load` and `k`.
pub open spec fn def_with_loads(def: TermView<DefView>, pointer_size: ByteSize) -> Seq<
    TermView<DefView>,
> {
    operand_load(def.tid.with_id_suffix(slot_suffix(0)), def.term.rhs.input0, 0, pointer_size)
        + operand_load(
        def.tid.with_id_suffix(slot_suffix(1)),
        def.term.rhs.input1,
        1,
        pointer_size,
    ) + operand_load(
        def.tid.with_id_suffix(slot_suffix(2)),
        def.term.rhs.input2,
        2,
        pointer_size,
    ) + seq![explicit_def(def)]
}

/// The varnode that holds the target of an indirect branch or an
/// indirect call. Any other jump, and one whose fields do not fit its
/// mnemonic, has none.
pub open spec fn indirect_operand(jmp: JmpView) -> Option<VariableView> {
    match jmp.mnemonic {
        JmpType::BRANCHIND => match jmp.goto {
            Some(LabelView::Indirect(var)) => Some(var),
            _ => None,
        },
        JmpType::CALLIND => match jmp.call {
            Some(call) => match call.target {
                Some(LabelView::Indirect(var)) => Some(var),
                _ => None,
            },
            None => None,
        },
        _ => None,
    }
}

/// The jump with `var` as the varnode that holds its target.
pub open spec fn with_indirect_operand(jmp: JmpView, var: VariableView) -> JmpView {
    match jmp.mnemonic {
        JmpType::BRANCHIND => JmpView { goto: Some(LabelView::Indirect(var)), ..jmp },
        JmpType::CALLIND => JmpView {
            call: Some(CallView { target: Some(LabelView::Indirect(var)), ..jmp.call->Some_0 }),
            ..jmp
        },
        _ => jmp,
    }
}

/// The jump at position `index` of its block as it stands after the
/// pass: where its target is read from memory at a fixed address, the
/// temporary with number `index` holds the target instead.
pub open spec fn explicit_jmp(jmp: TermView<JmpView>, index: nat) -> TermView<JmpView> {
    if reads_memory(indirect_operand(jmp.term)) {
        TermView {
            tid: jmp.tid,
            term: with_indirect_operand(
                jmp.term,
                VariableView::new_virtual(
                    load_temp_name(index),
                    indirect_operand(jmp.term)->Some_0.size,
                ),
            ),
        }
    } else {
        jmp
    }
}

/// The load that the pass makes for the jump at position `index`: it has
/// the identifier of the jump, extended by `_load`.
pub open spec fn jmp_load(jmp: TermView<JmpView>, index: nat, pointer_size: ByteSize) -> Seq<
    TermView<DefView>,
> {
    operand_load(
        jmp.tid.with_id_suffix("_load"@),
        indirect_operand(jmp.term),
        index,
        pointer_size,
    )
}

/// The loads that the pass makes for the jumps of a block, in the order
/// of the jumps.
pub open spec fn jmp_loads(jmps: Seq<TermView<JmpView>>, pointer_size: ByteSize) -> Seq<
    TermView<DefView>,
>
    decreases jmps.len(),
{
    if jmps.len() == 0 {
        Seq::empty()
    } else {
        jmp_loads(jmps.drop_last(), pointer_size) + jmp_load(
            jmps.last(),
            (jmps.len() - 1) as nat,
            pointer_size,
        )
    }
}

impl BlkView {
    /// The block as it stands after the pass: each definition is
    /// preceded by the loads for its operands, the loads for the jumps
    /// follow the last definition, and the jumps read the temporaries.
    pub open spec fn with_explicit_loads(self, pointer_size: ByteSize) -> BlkView {
        BlkView {
            defs: self.defs.flat_map(|d: TermView<DefView>| def_with_loads(d, pointer_size))
                + jmp_loads(self.jmps, pointer_size),
            jmps: Seq::new(self.jmps.len(), |i: int| explicit_jmp(self.jmps[i], i as nat)),
        }
    }
}

/// No operand of the definition stands for memory at a fixed address.
pub open spec fn reads_no_memory(def: DefView) -> bool {
    !reads_memory(def.rhs.input0) && !reads_memory(def.rhs.input1) && !reads_memory(
        def.rhs.input2,
    )
}

/// No operand of a definition of the block stands for memory at a fixed
/// address, and no target of an indirect branch or call does.
pub open spec fn has_explicit_loads(blk: BlkView) -> bool {
    &&& forall|i: int| 0 <= i < blk.defs.len() ==> reads_no_memory(#[trigger] blk.defs[i].term)
    &&& forall|i: int|
        0 <= i < blk.jmps.len() ==> !reads_memory(indirect_operand(#[trigger] blk.jmps[i].term))
}

/// The name of the temporary that the load with number `k` fills.
fn load_temp_text(k: usize) -> (r: String)
    ensures
        r@ == load_temp_name(k as nat),
{
    append_decimal(String::from_str("$load_temp"), k)
}

/// Makes the load for an operand that stands for memory and appends it
/// to `out`. Returns the operand as it stands after the pass.
fn make_operand_explicit(
    tid: Tid,
    operand: &Option<Variable>,
    k: usize,
    pointer_size: ByteSize,
    out: &mut Vec<Term<Def>>,
) -> (r: Option<Variable>)
    ensures
        r.deep_view() == explicit_operand(operand.deep_view(), k as nat),
        final(out).deep_view() == old(out).deep_view() + operand_load(
            tid.deep_view(),
            operand.deep_view(),
            k as nat,
            pointer_size,
        ),
{
    let ghost before = out.deep_view();
    match operand {
        Some(input) => {
            if input.address.is_some() {
                let name = load_temp_text(k);
                let load_def = input.to_load_def(name.as_str(), pointer_size);
                let temp = clone_operand(&load_def.lhs);
                out.push(Term { tid, term: load_def });
                proof {
                    let added = operand_load(
                        tid.deep_view(),
                        operand.deep_view(),
                        k as nat,
                        pointer_size,
                    );
                    assert(out.deep_view() =~= before + added);
                }
                temp
            } else {
                assert(out.deep_view() =~= before + Seq::<TermView<DefView>>::empty());
                Some(input.clone())
            }
        },
        None => {
            assert(out.deep_view() =~= before + Seq::<TermView<DefView>>::empty());
            None
        },
    }
}

/// Appends to `out` what the pass puts in the place of one definition.
fn push_def_with_loads(def: &Term<Def>, pointer_size: ByteSize, out: &mut Vec<Term<Def>>)
    ensures
        final(out).deep_view() == old(out).deep_view() + def_with_loads(
            def.deep_view(),
            pointer_size,
        ),
{
    let ghost before = out.deep_view();
    let ghost view = def.deep_view();
    let tid0 = def.tid.clone().with_id_suffix(append_decimal(String::from_str("_load"), 0).as_str());
    let input0 = make_operand_explicit(tid0, &def.term.rhs.input0, 0, pointer_size, out);
    let tid1 = def.tid.clone().with_id_suffix(append_decimal(String::from_str("_load"), 1).as_str());
    let input1 = make_operand_explicit(tid1, &def.term.rhs.input1, 1, pointer_size, out);
    let tid2 = def.tid.clone().with_id_suffix(append_decimal(String::from_str("_load"), 2).as_str());
    let input2 = make_operand_explicit(tid2, &def.term.rhs.input2, 2, pointer_size, out);
    let ghost loads = out.deep_view();
    let cleaned = Term {
        tid: def.tid.clone(),
        term: Def {
            lhs: clone_operand(&def.term.lhs),
            rhs: Expression { mnemonic: def.term.rhs.mnemonic, input0, input1, input2 },
        },
    };
    assert(cleaned.deep_view() == explicit_def(view));
    out.push(cleaned);
    assert(out.deep_view() =~= loads + seq![explicit_def(view)]);
    assert(out.deep_view() =~= before + def_with_loads(view, pointer_size));
}

/// Makes the load for the target of a jump, where the target is read
/// from memory, and appends it to `out`. The jump then reads the
/// temporary.
fn make_jmp_explicit(
    jmp: &mut Term<Jmp>,
    index: usize,
    pointer_size: ByteSize,
    out: &mut Vec<Term<Def>>,
)
    ensures
        final(jmp).deep_view() == explicit_jmp(old(jmp).deep_view(), index as nat),
        final(out).deep_view() == old(out).deep_view() + jmp_load(
            old(jmp).deep_view(),
            index as nat,
            pointer_size,
        ),
{
    proof {
        reveal_strlit("_load");
    }
    match jmp.term.mnemonic {
        JmpType::BRANCHIND => {
            let temp = match &jmp.term.goto {
                Some(Label::Indirect(var)) => {
                    let operand = Some(var.clone());
                    let tid = jmp.tid.clone().with_id_suffix("_load");
                    make_operand_explicit(tid, &operand, index, pointer_size, out)
                },
                _ => None,
            };
            if let Some(var) = temp {
                jmp.term.goto = Some(Label::Indirect(var));
            }
        },
        JmpType::CALLIND => {
            let temp = match &jmp.term.call {
                Some(call) => match &call.target {
                    Some(Label::Indirect(var)) => {
                        let operand = Some(var.clone());
                        let tid = jmp.tid.clone().with_id_suffix("_load");
                        make_operand_explicit(tid, &operand, index, pointer_size, out)
                    },
                    _ => None,
                },
                None => None,
            };
            if let Some(var) = temp {
                let replaced = match &jmp.term.call {
                    Some(call) => Some(
                        Call {
                            target: Some(Label::Indirect(var)),
                            return_: clone_label(&call.return_),
                            call_string: clone_text(&call.call_string),
                        },
                    ),
                    None => None,
                };
                jmp.term.call = replaced;
            }
        },
        _ => {},
    }
}

impl Blk {
    /// Turns every read of memory at a fixed address that hides in an
    /// operand into a load of its own.
    ///
    /// A definition whose operand in slot 0, 1 or 2 stands for memory is
    /// preceded by a load into a temporary, and reads the temporary. The
    /// same is done for the target of an indirect branch and of an
    /// indirect call; those loads follow the last definition.
    /// `generic_pointer_size` is the size that the addresses get.
    pub fn add_load_defs_for_implicit_ram_access(&mut self, generic_pointer_size: ByteSize)
        ensures
            final(self).deep_view() == old(self).deep_view().with_explicit_loads(
                generic_pointer_size,
            ),
            has_explicit_loads(final(self).deep_view()),
    {
        let ghost view = self.deep_view();
        proof {
            crate::laws::lemma_explicit_loads(view, generic_pointer_size);
        }
        let ghost f = |d: TermView<DefView>| def_with_loads(d, generic_pointer_size);
        let mut refactored: Vec<Term<Def>> = Vec::new();
        let mut i: usize = 0;
        while i < self.defs.len()
            invariant
                i <= self.defs.len(),
                view == self.deep_view(),
                f == |d: TermView<DefView>| def_with_loads(d, generic_pointer_size),
                refactored.deep_view() == view.defs.take(i as int).flat_map(f),
            decreases self.defs.len() - i,
        {
            push_def_with_loads(&self.defs[i], generic_pointer_size, &mut refactored);
            proof {
                view.defs.lemma_flat_map_take_append(f, i as int);
            }
            i += 1;
        }
        assert(view.defs.take(i as int) =~= view.defs);
        let n = self.jmps.len();
        let mut index: usize = 0;
        let ghost loads = refactored.deep_view();
        while index < n
            invariant
                index <= n,
                n == self.jmps.len(),
                n == view.jmps.len(),
                refactored.deep_view() == loads + jmp_loads(
                    view.jmps.take(index as int),
                    generic_pointer_size,
                ),
                forall|k: int|
                    0 <= k < index ==> (#[trigger] self.jmps[k]).deep_view() == explicit_jmp(
                        view.jmps[k],
                        k as nat,
                    ),
                forall|k: int|
                    index <= k < n ==> (#[trigger] self.jmps[k]).deep_view() == view.jmps[k],
            decreases n - index,
        {
            make_jmp_explicit(&mut self.jmps[index], index, generic_pointer_size, &mut refactored);
            proof {
                let taken = view.jmps.take(index + 1);
                assert(taken.drop_last() =~= view.jmps.take(index as int));
            }
            index += 1;
        }
        assert(view.jmps.take(n as int) =~= view.jmps);
        self.defs = refactored;
        assert(self.deep_view().jmps =~= view.with_explicit_loads(generic_pointer_size).jmps);
    }
}

/// The function has code, and none of its blocks lies at the address of
/// the function.
pub open spec fn lacks_entry_block(sub: TermView<SubView>) -> bool {
    sub.term.blocks.len() > 0 && !has_entry_block(sub)
}

/// The block term with the loads of its block made explicit.
pub open spec fn blk_term_with_explicit_loads(
    blk: TermView<BlkView>,
    pointer_size: ByteSize,
) -> TermView<BlkView> {
    TermView { tid: blk.tid, term: blk.term.with_explicit_loads(pointer_size) }
}

/// The function as it stands after both passes: the loads of its blocks
/// are explicit, and where none of its blocks lies at its address, it has
/// no blocks at all.
pub open spec fn normalized_sub(sub: TermView<SubView>, pointer_size: ByteSize) -> TermView<
    SubView,
> {
    TermView {
        tid: sub.tid,
        term: SubView {
            name: sub.term.name,
            blocks: if lacks_entry_block(sub) {
                Seq::empty()
            } else {
                sub.term.blocks.map_values(
                    |b: TermView<BlkView>| blk_term_with_explicit_loads(b, pointer_size),
                )
            },
        },
    }
}

/// The warning for a function that has lost its code: it names the
/// function and its identifier, and it is about the function.
pub open spec fn entry_warning(sub: TermView<SubView>) -> LogMessageView {
    LogMessageView {
        text: "Starting block of function "@ + sub.term.name + " ("@ + sub.tid.id
            + ") not found."@,
        level: LogLevel::Warning,
        location: Some(sub.tid),
    }
}

/// The warnings of the pass: one for each function that has code and no
/// entry block, in the order of the functions.
pub open spec fn entry_warnings(subs: Seq<TermView<SubView>>) -> Seq<LogMessageView> {
    subs.filter(|s: TermView<SubView>| lacks_entry_block(s)).map_values(
        |s: TermView<SubView>| entry_warning(s),
    )
}

impl ProjectView {
    /// The project as it stands after normalization: every function is
    /// normalized, with the size of the stack pointer as the size of
    /// addresses, and nothing else is changed.
    pub open spec fn normalized(self) -> ProjectView {
        let pointer_size = self.stack_pointer_register.size;
        ProjectView {
            program: TermView {
                tid: self.program.tid,
                term: ProgramView {
                    subs: self.program.term.subs.map_values(
                        |s: TermView<SubView>| normalized_sub(s, pointer_size),
                    ),
                    ..self.program.term
                },
            },
            ..self
        }
    }
}

/// Makes the warning for a function that has lost its code.
fn make_entry_warning(sub: &Term<Sub>) -> (r: LogMessage)
    ensures
        r.deep_view() == entry_warning(sub.deep_view()),
{
    let text = String::from_str("Starting block of function ").concat(
        sub.term.name.as_str(),
    ).concat(" (").concat(sub.tid.id.as_str()).concat(") not found.");
    LogMessage { text, level: LogLevel::Warning, location: Some(sub.tid.clone()) }
}

/// Normalizes one function, and appends the warning to `logs` where the
/// function loses its code.
fn normalize_sub(sub: &mut Term<Sub>, pointer_size: ByteSize, logs: &mut Vec<LogMessage>)
    ensures
        final(sub).deep_view() == normalized_sub(old(sub).deep_view(), pointer_size),
        final(logs).deep_view() == old(logs).deep_view() + if lacks_entry_block(
            old(sub).deep_view(),
        ) {
            seq![entry_warning(old(sub).deep_view())]
        } else {
            Seq::empty()
        },
{
    let ghost view = sub.deep_view();
    let ghost before = logs.deep_view();
    let ghost f = |b: TermView<BlkView>| blk_term_with_explicit_loads(b, pointer_size);
    let n = sub.term.blocks.len();
    let mut j: usize = 0;
    while j < n
        invariant
            j <= n,
            n == sub.term.blocks.len(),
            n == view.term.blocks.len(),
            sub.tid == old(sub).tid,
            sub.term.name == old(sub).term.name,
            view == old(sub).deep_view(),
            f == |b: TermView<BlkView>| blk_term_with_explicit_loads(b, pointer_size),
            forall|k: int|
                0 <= k < j ==> (#[trigger] sub.term.blocks[k]).deep_view() == f(
                    view.term.blocks[k],
                ),
            forall|k: int|
                j <= k < n ==> (#[trigger] sub.term.blocks[k]).deep_view() == view.term.blocks[k],
        decreases n - j,
    {
        sub.term.blocks[j].term.add_load_defs_for_implicit_ram_access(pointer_size);
        j += 1;
    }
    let ghost explicit = sub.deep_view();
    proof {
        assert(explicit.term.blocks =~= view.term.blocks.map_values(f));
        assert forall|i: int| is_entry_at(explicit, i) == is_entry_at(view, i) by {}
        if has_entry_block(view) {
            let i = choose|i: int| is_entry_at(view, i);
            assert(is_entry_at(explicit, i));
        }
        if has_entry_block(explicit) {
            let i = choose|i: int| is_entry_at(explicit, i);
            assert(is_entry_at(view, i));
        }
    }
    if n > 0 && crate::pcode::block::find_entry(sub).is_none() {
        logs.push(make_entry_warning(sub));
        sub.term.blocks = Vec::new();
        assert(logs.deep_view() =~= before + seq![entry_warning(view)]);
        assert(sub.deep_view().term.blocks =~= Seq::<TermView<BlkView>>::empty());
    } else {
        assert(logs.deep_view() =~= before + Seq::<LogMessageView>::empty());
    }
}

impl Project {
    /// Brings the project into the form that the conversion expects.
    ///
    /// Reads of memory at a fixed address that hide in operands become
    /// loads of their own, in every block of every function. A function
    /// that has code, none of which lies at the address of the function,
    /// loses its code: it is kept as a function without a body, and a
    /// warning that names it is returned.
    ///
    /// Afterwards no function has code without an entry block, and no
    /// operand of a definition and no target of an indirect branch or
    /// call stands for memory at a fixed address.
    #[must_use]
    pub fn normalize(&mut self) -> (logs: Vec<LogMessage>)
        ensures
            final(self).deep_view() == old(self).deep_view().normalized(),
            logs.deep_view() == entry_warnings(old(self).deep_view().program.term.subs),
            forall|i: int|
                0 <= i < final(self).program.term.subs.len() ==> !lacks_entry_block(
                    #[trigger] final(self).deep_view().program.term.subs[i],
                ),
            forall|i: int, j: int|
                0 <= i < final(self).deep_view().program.term.subs.len() && 0 <= j
                    < final(self).deep_view().program.term.subs[i].term.blocks.len()
                    ==> has_explicit_loads(
                    (#[trigger] final(self).deep_view().program.term.subs[i].term.blocks[j]).term,
                ),
    {
        let ghost view = self.deep_view();
        proof {
            crate::laws::lemma_normalized_project_has_explicit_loads(view);
            crate::laws::lemma_normalized_project_has_entry_blocks(view);
        }
        let ghost subs = view.program.term.subs;
        let pointer_size = self.stack_pointer_register.size;
        let ghost f = |s: TermView<SubView>| normalized_sub(s, pointer_size);
        let ghost lacks = |s: TermView<SubView>| lacks_entry_block(s);
        let ghost warn = |s: TermView<SubView>| entry_warning(s);
        let mut logs: Vec<LogMessage> = Vec::new();
        let n = self.program.term.subs.len();
        let mut i: usize = 0;
        while i < n
            invariant
                i <= n,
                n == self.program.term.subs.len(),
                n == subs.len(),
                view == old(self).deep_view(),
                subs == view.program.term.subs,
                pointer_size == view.stack_pointer_register.size,
                self.program.tid == old(self).program.tid,
                self.program.term.extern_symbols == old(self).program.term.extern_symbols,
                self.program.term.entry_points == old(self).program.term.entry_points,
                self.program.term.image_base == old(self).program.term.image_base,
                self.cpu_architecture == old(self).cpu_architecture,
                self.stack_pointer_register == old(self).stack_pointer_register,
                self.register_properties == old(self).register_properties,
                self.register_calling_convention == old(self).register_calling_convention,
                f == |s: TermView<SubView>| normalized_sub(s, pointer_size),
                lacks == |s: TermView<SubView>| lacks_entry_block(s),
                warn == |s: TermView<SubView>| entry_warning(s),
                logs.deep_view() == subs.take(i as int).filter(lacks).map_values(warn),
                forall|k: int|
                    0 <= k < i ==> (#[trigger] self.program.term.subs[k]).deep_view() == f(subs[k]),
                forall|k: int|
                    i <= k < n ==> (#[trigger] self.program.term.subs[k]).deep_view() == subs[k],
            decreases n - i,
        {
            normalize_sub(&mut self.program.term.subs[i], pointer_size, &mut logs);
            proof {
                subs.lemma_take_succ_push(i as int);
                subs.take(i as int).lemma_filter_push(subs[i as int], lacks);
            }
            i += 1;
        }
        proof {
            assert(subs.take(n as int) =~= subs);
            assert(self.deep_view().program.term.subs =~= subs.map_values(f));
        }
        logs
    }
}

} // verus!
