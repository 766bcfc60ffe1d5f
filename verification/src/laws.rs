//! What holds of the passes and of the conversion, whatever the input.

use crate::bitvector::ByteSize;
use crate::canonical::{
    blk_is_canonical, canonical_blk, canonical_defs, canonical_jmp, canonical_jmp_term,
    canonical_sub, is_redundant, jmp_is_canonical, marked_at, next_def, program_is_canonical,
    rewritten_def,
};
use crate::error::{all_ok, lemma_try_map_error_has_source, try_map, LiftError};
use crate::ir::expression::{BinOpType, CastOpType, IrExpressionView, IrVariableView};
use crate::ir::instruction::{starts_at_entry, IrBlkView, IrDefView, IrJmpView, IrSubView};
use crate::ir::program::{IrExternSymbolView, IrProjectView};
use crate::log::LogLevel;
use crate::normalize::{
    def_with_loads, entry_warning, entry_warnings, explicit_def, has_explicit_loads,
    indirect_operand, jmp_load, jmp_loads, lacks_entry_block, normalized_sub, reads_memory,
    reads_no_memory,
};
use crate::pcode::instruction::{
    direct_target, indirect_target, return_target, DefView, JmpView, LabelView,
};
use crate::pcode::operand::{operand_expression, ExpressionType, ExpressionView, VariableView};
use crate::subregister::{
    base_variable, canonical_def, canonical_expression, canonical_source, canonical_target,
    def_is_canonical, is_followed_by_zero_extension, lemma_base_of_sub_register, reads_sub_register,
    sub_register, table_is_consistent, zero_extends,
};
use crate::pcode::block::{
    entry_first, is_entry_at, lemma_entry_position_is_first, lifted_blk_term, lifted_def_term,
    lifted_jmp_term, lifted_sub, BlkView, SubView,
};
use crate::pcode::operand::RegisterPropertiesView;
use crate::pcode::program::{ArgIntent, ArgView, ExternSymbolView, ProgramView, ProjectView};
use crate::tid::{TermView, TidView};
use vstd::prelude::*;

verus! {

/// A function that the conversion emits has no code, or its first block
/// lies at the address of the function.
pub proof fn lemma_lifted_sub_starts_at_entry(sub: TermView<SubView>)
    requires
        lifted_sub(sub) is Ok,
    ensures
        starts_at_entry(lifted_sub(sub)->Ok_0),
{
    reveal(lifted_sub);
    let ordered = entry_first(sub)->Ok_0;
    let f = |b: TermView<BlkView>| lifted_blk_term(b);
    let blocks = try_map(ordered, f)->Ok_0;
    if sub.term.blocks.len() > 0 {
        if !is_entry_at(sub, 0) {
            let i = choose|i: int| is_entry_at(sub, i);
            lemma_entry_position_is_first(sub, i);
        }
        assert(all_ok(ordered, f));
        assert(f(ordered[0]) is Ok);
        assert(blocks[0].tid == ordered[0].tid);
    }
}

/// Canonicalization keeps the entry block of a function in the first
/// place.
pub proof fn lemma_canonical_sub_starts_at_entry(
    sub: TermView<IrSubView>,
    table: Seq<RegisterPropertiesView>,
)
    requires
        starts_at_entry(sub),
    ensures
        starts_at_entry(canonical_sub(sub, table)),
{
}

/// Every function of a project that the conversion emits has no code, or
/// its first block lies at the address of the function.
pub proof fn lemma_emitted_subs_start_at_entry(project: ProjectView, binary_base_address: u64)
    requires
        project.lifted(binary_base_address) is Ok,
    ensures
        forall|i: int|
            0 <= i < project.lifted(binary_base_address)->Ok_0.program.term.subs.len()
                ==> starts_at_entry(
                #[trigger] project.lifted(binary_base_address)->Ok_0.program.term.subs[i],
            ),
{
    reveal(ProjectView::lifted);
    reveal(ProgramView::lifted);
    let table = project.register_properties;
    let f = |s: TermView<SubView>| lifted_sub(s);
    let lifted = try_map(project.program.term.subs, f)->Ok_0;
    let subs = project.lifted(binary_base_address)->Ok_0.program.term.subs;
    assert forall|i: int| 0 <= i < subs.len() implies starts_at_entry(#[trigger] subs[i]) by {
        assert(f(project.program.term.subs[i]) is Ok);
        lemma_lifted_sub_starts_at_entry(project.program.term.subs[i]);
        lemma_canonical_sub_starts_at_entry(lifted[i], table);
    }
}

/// A normalized function has its entry block among its blocks: the
/// conversion never finds that one is missing.
pub proof fn lemma_normalized_sub_has_entry(sub: TermView<SubView>, pointer_size: ByteSize)
    ensures
        entry_first(normalized_sub(sub, pointer_size)) is Ok,
{
    let normalized = normalized_sub(sub, pointer_size);
    if !lacks_entry_block(sub) && sub.term.blocks.len() > 0 {
        let i = choose|i: int| is_entry_at(sub, i);
        assert(is_entry_at(normalized, i));
    }
}

/// The conversion of an operand never finds that an entry block is
/// missing.
pub proof fn lemma_operand_has_no_entry_error(var: VariableView)
    ensures
        var.as_register() != Err::<IrVariableView, LiftError>(LiftError::MissingEntryBlock),
        var.as_constant() != Err::<Seq<u8>, LiftError>(LiftError::MissingEntryBlock),
        var.as_expression() != Err::<IrExpressionView, LiftError>(LiftError::MissingEntryBlock),
        var.as_byte_count() != Err::<ByteSize, LiftError>(LiftError::MissingEntryBlock),
{
}

/// The conversion of an operation never finds that an entry block is
/// missing.
pub proof fn lemma_expression_has_no_entry_error(e: ExpressionView)
    ensures
        e.as_expression() != Err::<IrExpressionView, LiftError>(LiftError::MissingEntryBlock),
        operand_expression(e.input0) != Err::<IrExpressionView, LiftError>(
            LiftError::MissingEntryBlock,
        ),
        operand_expression(e.input1) != Err::<IrExpressionView, LiftError>(
            LiftError::MissingEntryBlock,
        ),
        operand_expression(e.input2) != Err::<IrExpressionView, LiftError>(
            LiftError::MissingEntryBlock,
        ),
{
    if e.input0 is Some {
        lemma_operand_has_no_entry_error(e.input0->Some_0);
    }
    if e.input1 is Some {
        lemma_operand_has_no_entry_error(e.input1->Some_0);
    }
    if e.input2 is Some {
        lemma_operand_has_no_entry_error(e.input2->Some_0);
    }
}

/// The conversion of a definition never finds that an entry block is
/// missing.
pub proof fn lemma_def_has_no_entry_error(def: DefView)
    ensures
        def.lifted() != Err::<IrDefView, LiftError>(LiftError::MissingEntryBlock),
{
    lemma_expression_has_no_entry_error(def.rhs);
    if def.lhs is Some {
        lemma_operand_has_no_entry_error(def.lhs->Some_0);
    }
    if def.rhs.input1 is Some {
        lemma_operand_has_no_entry_error(def.rhs.input1->Some_0);
    }
}

/// The conversion of a label never finds that an entry block is missing,
/// unless that is the error for a label that is absent.
pub proof fn lemma_label_has_no_entry_error(label: Option<LabelView>, missing: LiftError)
    requires
        missing != LiftError::MissingEntryBlock,
    ensures
        direct_target(label, missing) != Err::<TidView, LiftError>(LiftError::MissingEntryBlock),
        indirect_target(label, missing) != Err::<IrExpressionView, LiftError>(
            LiftError::MissingEntryBlock,
        ),
        return_target(label) != Err::<Option<TidView>, LiftError>(LiftError::MissingEntryBlock),
{
    match label {
        Some(LabelView::Indirect(var)) => {
            lemma_operand_has_no_entry_error(var);
        },
        _ => {},
    }
}

/// The conversion of a jump never finds that an entry block is missing.
pub proof fn lemma_jmp_has_no_entry_error(jmp: JmpView)
    ensures
        jmp.lifted() != Err::<IrJmpView, LiftError>(LiftError::MissingEntryBlock),
{
    lemma_label_has_no_entry_error(jmp.goto, LiftError::MissingLabel);
    if jmp.condition is Some {
        lemma_operand_has_no_entry_error(jmp.condition->Some_0);
    }
    if jmp.call is Some {
        let call = jmp.call->Some_0;
        lemma_label_has_no_entry_error(call.target, LiftError::MissingCallField);
        lemma_label_has_no_entry_error(call.return_, LiftError::MissingCallField);
    }
}

/// The conversion of a block never finds that an entry block is missing.
pub proof fn lemma_blk_has_no_entry_error(blk: BlkView)
    ensures
        blk.lifted() != Err::<IrBlkView, LiftError>(LiftError::MissingEntryBlock),
{
    reveal(BlkView::lifted);
    let fd = |d: TermView<DefView>| lifted_def_term(d);
    let fj = |j: TermView<JmpView>| lifted_jmp_term(j);
    if try_map(blk.defs, fd) is Err {
        lemma_try_map_error_has_source(blk.defs, fd);
        let i = choose|i: int|
            0 <= i < blk.defs.len() && (#[trigger] fd(blk.defs[i])) == Err::<
                TermView<IrDefView>,
                LiftError,
            >(try_map(blk.defs, fd)->Err_0);
        lemma_def_has_no_entry_error(blk.defs[i].term);
    } else if try_map(blk.jmps, fj) is Err {
        lemma_try_map_error_has_source(blk.jmps, fj);
        let i = choose|i: int|
            0 <= i < blk.jmps.len() && (#[trigger] fj(blk.jmps[i])) == Err::<
                TermView<IrJmpView>,
                LiftError,
            >(try_map(blk.jmps, fj)->Err_0);
        lemma_jmp_has_no_entry_error(blk.jmps[i].term);
    }
}

/// Where the conversion of a function finds that an entry block is
/// missing, the function has code, none of which lies at its address.
pub proof fn lemma_entry_error_has_source(sub: TermView<SubView>)
    requires
        lifted_sub(sub) == Err::<TermView<IrSubView>, LiftError>(LiftError::MissingEntryBlock),
    ensures
        lacks_entry_block(sub),
{
    reveal(lifted_sub);
    if entry_first(sub) is Ok {
        let ordered = entry_first(sub)->Ok_0;
        let f = |b: TermView<BlkView>| lifted_blk_term(b);
        lemma_try_map_error_has_source(ordered, f);
        let i = choose|i: int|
            0 <= i < ordered.len() && (#[trigger] f(ordered[i])) == Err::<
                TermView<IrBlkView>,
                LiftError,
            >(LiftError::MissingEntryBlock);
        lemma_blk_has_no_entry_error(ordered[i].term);
    }
}

/// Where normalization has run, the conversion never finds that an entry
/// block is missing.
pub proof fn lemma_normalized_project_has_no_entry_error(
    project: ProjectView,
    binary_base_address: u64,
)
    ensures
        project.normalized().lifted(binary_base_address) != Err::<IrProjectView, LiftError>(
            LiftError::MissingEntryBlock,
        ),
{
    reveal(ProjectView::lifted);
    reveal(ProgramView::lifted);
    let normalized = project.normalized();
    let program = normalized.program.term;
    let fs = |s: TermView<SubView>| lifted_sub(s);
    let fe = |s: ExternSymbolView| s.lifted();
    if try_map(program.subs, fs) is Err {
        lemma_try_map_error_has_source(program.subs, fs);
        if try_map(program.subs, fs)->Err_0 == LiftError::MissingEntryBlock {
            let i = choose|i: int|
                0 <= i < program.subs.len() && (#[trigger] fs(program.subs[i])) == Err::<
                    TermView<IrSubView>,
                    LiftError,
                >(LiftError::MissingEntryBlock);
            lemma_entry_error_has_source(program.subs[i]);
            lemma_normalized_project_has_entry_blocks(project);
        }
    } else if try_map(program.extern_symbols, fe) is Err {
        lemma_try_map_error_has_source(program.extern_symbols, fe);
        let i = choose|i: int|
            0 <= i < program.extern_symbols.len() && (#[trigger] fe(program.extern_symbols[i]))
                == Err::<IrExternSymbolView, LiftError>(
                try_map(program.extern_symbols, fe)->Err_0,
            );
        lemma_symbol_has_no_entry_error(program.extern_symbols[i]);
    }
}

/// The conversion of an extern symbol never finds that an entry block is
/// missing.
pub proof fn lemma_symbol_has_no_entry_error(symbol: ExternSymbolView)
    ensures
        symbol.lifted() != Err::<IrExternSymbolView, LiftError>(LiftError::MissingEntryBlock),
{
    reveal(ExternSymbolView::lifted);
    let f = |a: ArgView| a.lifted();
    if try_map(symbol.arguments, f) is Err {
        lemma_try_map_error_has_source(symbol.arguments, f);
    }
}

/// After normalization, no function of the project has code without an
/// entry block.
pub proof fn lemma_normalized_project_has_entry_blocks(project: ProjectView)
    ensures
        forall|i: int|
            0 <= i < project.normalized().program.term.subs.len() ==> !lacks_entry_block(
                #[trigger] project.normalized().program.term.subs[i],
            ),
{
    let pointer_size = project.stack_pointer_register.size;
    let subs = project.program.term.subs;
    assert forall|i: int|
        0 <= i < project.normalized().program.term.subs.len() implies !lacks_entry_block(
        #[trigger] project.normalized().program.term.subs[i],
    ) by {
        let normalized = normalized_sub(subs[i], pointer_size);
        if !lacks_entry_block(subs[i]) && subs[i].term.blocks.len() > 0 {
            let k = choose|k: int| is_entry_at(subs[i], k);
            assert(is_entry_at(normalized, k));
        }
    }
}

/// The parameters of a converted extern symbol are its arguments that
/// are passed in, the return values those that are handed back, each
/// group in the order of the arguments; and every argument is in one of
/// the two groups.
pub proof fn lemma_arguments_are_partitioned(symbol: ExternSymbolView)
    requires
        symbol.lifted() is Ok,
    ensures
        ({
            let lifted = symbol.lifted()->Ok_0;
            let passed_in = symbol.arguments.filter(|a: ArgView| a.intent == ArgIntent::INPUT);
            let handed_back = symbol.arguments.filter(|a: ArgView| a.intent == ArgIntent::OUTPUT);
            &&& lifted.parameters.len() == passed_in.len()
            &&& lifted.return_values.len() == handed_back.len()
            &&& lifted.parameters.len() + lifted.return_values.len() == symbol.arguments.len()
            &&& forall|k: int|
                0 <= k < passed_in.len() ==> passed_in[k].lifted() == Ok::<_, LiftError>(
                    #[trigger] lifted.parameters[k],
                )
            &&& forall|k: int|
                0 <= k < handed_back.len() ==> handed_back[k].lifted() == Ok::<_, LiftError>(
                    #[trigger] lifted.return_values[k],
                )
        }),
{
    reveal(ExternSymbolView::lifted);
    let args = symbol.arguments;
    let is_in = |a: ArgView| a.intent == ArgIntent::INPUT;
    let is_out = |a: ArgView| a.intent == ArgIntent::OUTPUT;
    let f = |a: ArgView| a.lifted();
    lemma_intents_partition(args);
    assert forall|k: int| 0 <= k < args.filter(is_in).len() implies (#[trigger] args.filter(
        is_in,
    )[k]).lifted() is Ok by {
        let a = args.filter(is_in)[k];
        args.lemma_filter_contains_rev(is_in, a);
        let i = choose|i: int| 0 <= i < args.len() && args[i] == a;
        assert(f(args[i]) is Ok);
    }
    assert forall|k: int| 0 <= k < args.filter(is_out).len() implies (#[trigger] args.filter(
        is_out,
    )[k]).lifted() is Ok by {
        let a = args.filter(is_out)[k];
        args.lemma_filter_contains_rev(is_out, a);
        let i = choose|i: int| 0 <= i < args.len() && args[i] == a;
        assert(f(args[i]) is Ok);
    }
}

/// Every argument is passed in or handed back, and none is both.
pub proof fn lemma_intents_partition(arguments: Seq<ArgView>)
    ensures
        arguments.filter(|a: ArgView| a.intent == ArgIntent::INPUT).len() + arguments.filter(
            |a: ArgView| a.intent == ArgIntent::OUTPUT,
        ).len() == arguments.len(),
    decreases arguments.len(),
{
    reveal(Seq::filter);
    if arguments.len() > 0 {
        lemma_intents_partition(arguments.drop_last());
    }
}

/// A function that has code and no entry block has no code after
/// normalization, and the warnings hold exactly one for it, at its place
/// among the warnings for the other functions. The warning names the
/// function and its identifier.
pub proof fn lemma_dead_function_is_logged(
    subs: Seq<TermView<SubView>>,
    i: int,
    pointer_size: ByteSize,
)
    requires
        0 <= i < subs.len(),
        lacks_entry_block(subs[i]),
    ensures
        normalized_sub(subs[i], pointer_size).term.blocks.len() == 0,
        entry_warnings(subs) == entry_warnings(subs.take(i)) + seq![entry_warning(subs[i])]
            + entry_warnings(subs.skip(i + 1)),
        entry_warning(subs[i]).level == LogLevel::Warning,
        entry_warning(subs[i]).location == Some(subs[i].tid),
        entry_warnings(seq![subs[i]]) == seq![entry_warning(subs[i])],
{
    lemma_warnings_split(subs, i);
    lemma_warnings_of_one(subs[i]);
}

/// A function that has no code, or that has an entry block, keeps its
/// blocks in normalization and gets no warning.
pub proof fn lemma_live_function_is_not_logged(subs: Seq<TermView<SubView>>, i: int)
    requires
        0 <= i < subs.len(),
        !lacks_entry_block(subs[i]),
    ensures
        entry_warnings(subs) == entry_warnings(subs.take(i)) + entry_warnings(subs.skip(i + 1)),
{
    lemma_warnings_split(subs, i);
    lemma_warnings_of_one(subs[i]);
}

/// The warnings for a list of functions are those for the functions
/// before position `i`, those for the function at `i`, and those for the
/// functions behind it.
pub proof fn lemma_warnings_split(subs: Seq<TermView<SubView>>, i: int)
    requires
        0 <= i < subs.len(),
    ensures
        entry_warnings(subs) == entry_warnings(subs.take(i)) + entry_warnings(seq![subs[i]])
            + entry_warnings(subs.skip(i + 1)),
{
    let lacks = |s: TermView<SubView>| lacks_entry_block(s);
    let warn = |s: TermView<SubView>| entry_warning(s);
    let a = subs.take(i);
    let b = seq![subs[i]];
    let c = subs.skip(i + 1);
    assert(subs =~= a + b + c);
    Seq::filter_distributes_over_add(a + b, c, lacks);
    Seq::filter_distributes_over_add(a, b, lacks);
    assert(subs.filter(lacks) == a.filter(lacks) + b.filter(lacks) + c.filter(lacks));
    assert((a.filter(lacks) + b.filter(lacks) + c.filter(lacks)).map_values(warn) =~= a.filter(
        lacks,
    ).map_values(warn) + b.filter(lacks).map_values(warn) + c.filter(lacks).map_values(warn));
}

/// The warnings for a single function: one where it has code and no
/// entry block, and none else.
pub proof fn lemma_warnings_of_one(sub: TermView<SubView>)
    ensures
        entry_warnings(seq![sub]) == if lacks_entry_block(sub) {
            seq![entry_warning(sub)]
        } else {
            Seq::empty()
        },
{
    let lacks = |s: TermView<SubView>| lacks_entry_block(s);
    let warn = |s: TermView<SubView>| entry_warning(s);
    let empty = Seq::<TermView<SubView>>::empty();
    assert(empty.filter(lacks) =~= empty) by {
        reveal(Seq::filter);
    }
    assert(seq![sub] =~= empty.push(sub));
    empty.lemma_filter_push(sub, lacks);
    if lacks_entry_block(sub) {
        assert(seq![sub].filter(lacks) =~= seq![sub]);
        assert(seq![sub].map_values(warn) =~= seq![entry_warning(sub)]);
    } else {
        assert(seq![sub].filter(lacks) =~= empty);
        assert(empty.map_values(warn) =~= Seq::empty());
    }
}

/// If every element that `f` makes of an element of `s` has a property,
/// every element of the flat map has it.
pub proof fn lemma_flat_map_keeps<A, B>(
    s: Seq<A>,
    f: spec_fn(A) -> Seq<B>,
    p: spec_fn(B) -> bool,
)
    requires
        forall|i: int, k: int| 0 <= i < s.len() && 0 <= k < f(s[i]).len() ==> p(#[trigger] f(s[i])[k]),
    ensures
        forall|k: int| 0 <= k < s.flat_map(f).len() ==> p(#[trigger] s.flat_map(f)[k]),
    decreases s.len(),
{
    if s.len() == 0 {
        assert(s.map_values(f) =~= Seq::<Seq<B>>::empty());
    } else {
        let rest = s.drop_last();
        assert forall|i: int, k: int| 0 <= i < rest.len() && 0 <= k < f(rest[i]).len() implies p(
            #[trigger] f(rest[i])[k],
        ) by {
            assert(rest[i] == s[i]);
        }
        lemma_flat_map_keeps(rest, f, p);
        rest.lemma_flat_map_push(f, s.last());
        assert(s =~= rest.push(s.last()));
        assert forall|k: int| 0 <= k < s.flat_map(f).len() implies p(
            #[trigger] s.flat_map(f)[k],
        ) by {
            if k >= rest.flat_map(f).len() {
                assert(s.flat_map(f)[k] == f(s[s.len() - 1])[k - rest.flat_map(f).len()]);
            }
        }
    }
}

/// What the pass puts in the place of a definition ends with the
/// definition itself, which reads no memory at a fixed address; before it
/// stand only loads, each into a temporary that the definition reads.
pub proof fn lemma_loads_precede_their_use(def: TermView<DefView>, pointer_size: ByteSize)
    ensures
        ({
            let put = def_with_loads(def, pointer_size);
            let cleaned = explicit_def(def);
            &&& put.len() >= 1
            &&& put.last() == cleaned
            &&& forall|k: int| 0 <= k < put.len() ==> reads_no_memory(#[trigger] put[k].term)
            &&& forall|k: int|
                0 <= k < put.len() - 1 ==> {
                    &&& (#[trigger] put[k]).term.rhs.mnemonic == ExpressionType::LOAD
                    &&& put[k].term.lhs is Some
                    &&& (put[k].term.lhs == cleaned.term.rhs.input0 || put[k].term.lhs
                        == cleaned.term.rhs.input1 || put[k].term.lhs == cleaned.term.rhs.input2)
                }
        }),
{
}

/// After the pass, no operand of a definition of the block stands for
/// memory at a fixed address, and no target of an indirect branch or
/// call does.
pub proof fn lemma_explicit_loads(blk: BlkView, pointer_size: ByteSize)
    ensures
        has_explicit_loads(blk.with_explicit_loads(pointer_size)),
{
    let f = |d: TermView<DefView>| def_with_loads(d, pointer_size);
    let p = |d: TermView<DefView>| reads_no_memory(d.term);
    let out = blk.with_explicit_loads(pointer_size);
    assert forall|i: int, k: int| 0 <= i < blk.defs.len() && 0 <= k < f(blk.defs[i]).len() implies p(
        #[trigger] f(blk.defs[i])[k],
    ) by {
        lemma_loads_precede_their_use(blk.defs[i], pointer_size);
    }
    lemma_flat_map_keeps(blk.defs, f, p);
    lemma_jmp_loads_read_no_memory(blk.jmps, pointer_size);
    assert forall|i: int| 0 <= i < out.defs.len() implies reads_no_memory(
        #[trigger] out.defs[i].term,
    ) by {
        let first = blk.defs.flat_map(f);
        if i < first.len() {
            assert(p(first[i]));
        } else {
            assert(out.defs[i] == jmp_loads(blk.jmps, pointer_size)[i - first.len()]);
        }
    }
}

/// The loads that the pass makes for jumps read no memory at a fixed
/// address through their operands.
pub proof fn lemma_jmp_loads_read_no_memory(jmps: Seq<TermView<JmpView>>, pointer_size: ByteSize)
    ensures
        forall|k: int|
            0 <= k < jmp_loads(jmps, pointer_size).len() ==> reads_no_memory(
                #[trigger] jmp_loads(jmps, pointer_size)[k].term,
            ),
    decreases jmps.len(),
{
    if jmps.len() > 0 {
        lemma_jmp_loads_read_no_memory(jmps.drop_last(), pointer_size);
        let before = jmp_loads(jmps.drop_last(), pointer_size);
        let last = jmp_load(jmps.last(), (jmps.len() - 1) as nat, pointer_size);
        assert forall|k: int|
            0 <= k < jmp_loads(jmps, pointer_size).len() implies reads_no_memory(
            #[trigger] jmp_loads(jmps, pointer_size)[k].term,
        ) by {
            if k < before.len() {
                assert(jmp_loads(jmps, pointer_size)[k] == before[k]);
            } else {
                assert(jmp_loads(jmps, pointer_size)[k] == last[k - before.len()]);
            }
        }
    }
}

/// Where `f` makes of every element of `s` that element alone, the flat
/// map is `s`.
pub proof fn lemma_flat_map_of_singletons<A>(s: Seq<A>, f: spec_fn(A) -> Seq<A>)
    requires
        forall|i: int| 0 <= i < s.len() ==> #[trigger] f(s[i]) == seq![s[i]],
    ensures
        s.flat_map(f) == s,
    decreases s.len(),
{
    if s.len() == 0 {
        assert(s.map_values(f) =~= Seq::<Seq<A>>::empty());
        assert(s.flat_map(f) =~= s);
    } else {
        let rest = s.drop_last();
        assert forall|i: int| 0 <= i < rest.len() implies #[trigger] f(rest[i]) == seq![rest[i]] by {
            assert(rest[i] == s[i]);
        }
        lemma_flat_map_of_singletons(rest, f);
        rest.lemma_flat_map_push(f, s.last());
        assert(s =~= rest.push(s.last()));
        assert(f(s[s.len() - 1]) == seq![s.last()]);
        assert(rest + seq![s.last()] =~= s);
    }
}

/// Jumps whose targets are not read from memory at a fixed address get
/// no loads.
pub proof fn lemma_no_jmp_loads(jmps: Seq<TermView<JmpView>>, pointer_size: ByteSize)
    requires
        forall|i: int|
            0 <= i < jmps.len() ==> !reads_memory(indirect_operand(#[trigger] jmps[i].term)),
    ensures
        jmp_loads(jmps, pointer_size) == Seq::<TermView<DefView>>::empty(),
    decreases jmps.len(),
{
    if jmps.len() > 0 {
        let rest = jmps.drop_last();
        assert forall|i: int| 0 <= i < rest.len() implies !reads_memory(
            indirect_operand(#[trigger] rest[i].term),
        ) by {
            assert(rest[i] == jmps[i]);
        }
        lemma_no_jmp_loads(rest, pointer_size);
        assert(jmps.last() == jmps[jmps.len() - 1]);
        assert(jmp_loads(jmps, pointer_size) =~= Seq::<TermView<DefView>>::empty());
    }
}

/// The pass leaves a block in which no operand and no target of an
/// indirect branch or call stands for memory at a fixed address as it
/// is. So the pass changes nothing when it is run a second time.
pub proof fn lemma_explicit_block_is_kept(blk: BlkView, pointer_size: ByteSize)
    requires
        has_explicit_loads(blk),
    ensures
        blk.with_explicit_loads(pointer_size) == blk,
{
    let f = |d: TermView<DefView>| def_with_loads(d, pointer_size);
    assert forall|i: int| 0 <= i < blk.defs.len() implies #[trigger] f(blk.defs[i]) == seq![
        blk.defs[i],
    ] by {
        assert(reads_no_memory(blk.defs[i].term));
        assert(explicit_def(blk.defs[i]) == blk.defs[i]);
        assert(f(blk.defs[i]) =~= seq![blk.defs[i]]);
    }
    lemma_flat_map_of_singletons(blk.defs, f);
    lemma_no_jmp_loads(blk.jmps, pointer_size);
    let out = blk.with_explicit_loads(pointer_size);
    assert(out.defs =~= blk.defs);
    assert forall|i: int| 0 <= i < blk.jmps.len() implies out.jmps[i] == blk.jmps[i] by {
        assert(!reads_memory(indirect_operand(blk.jmps[i].term)));
    }
    assert(out.jmps =~= blk.jmps);
}

/// After normalization, no operand of a definition of the project
/// stands for memory at a fixed address, and no target of an indirect
/// branch or call does.
pub proof fn lemma_normalized_project_has_explicit_loads(project: ProjectView)
    ensures
        forall|i: int, j: int|
            0 <= i < project.normalized().program.term.subs.len() && 0 <= j
                < project.normalized().program.term.subs[i].term.blocks.len()
                ==> has_explicit_loads(
                (#[trigger] project.normalized().program.term.subs[i].term.blocks[j]).term,
            ),
{
    let pointer_size = project.stack_pointer_register.size;
    let subs = project.program.term.subs;
    assert forall|i: int, j: int|
        0 <= i < project.normalized().program.term.subs.len() && 0 <= j
            < project.normalized().program.term.subs[i].term.blocks.len() implies has_explicit_loads(
        (#[trigger] project.normalized().program.term.subs[i].term.blocks[j]).term,
    ) by {
        lemma_explicit_loads(subs[i].term.blocks[j].term, pointer_size);
    }
}

/// In canonical form, an expression reads no sub-register.
pub proof fn lemma_canonical_expression_reads_no_sub_register(
    e: IrExpressionView,
    table: Seq<RegisterPropertiesView>,
)
    requires
        table_is_consistent(table),
    ensures
        !reads_sub_register(canonical_expression(e, table), table),
    decreases e,
{
    match e {
        IrExpressionView::Var(var) => {
            if sub_register(table, var.name) is Some {
                lemma_base_of_sub_register(table, var.name);
                let record = sub_register(table, var.name)->Some_0;
                assert(!reads_sub_register(
                    IrExpressionView::Var(base_variable(table, record)),
                    table,
                ));
            }
        },
        IrExpressionView::Const(_) => {},
        IrExpressionView::BinOp { op, lhs, rhs } => {
            lemma_canonical_expression_reads_no_sub_register(*lhs, table);
            lemma_canonical_expression_reads_no_sub_register(*rhs, table);
        },
        IrExpressionView::UnOp { op, arg } => {
            lemma_canonical_expression_reads_no_sub_register(*arg, table);
        },
        IrExpressionView::Cast { op, size, arg } => {
            lemma_canonical_expression_reads_no_sub_register(*arg, table);
        },
        IrExpressionView::Subpiece { low_byte, size, arg } => {
            lemma_canonical_expression_reads_no_sub_register(*arg, table);
        },
    }
}

/// In canonical form, an instruction neither writes nor reads a
/// sub-register, whatever follows it.
pub proof fn lemma_canonical_def_is_canonical(
    def: IrDefView,
    next: Option<TermView<IrDefView>>,
    table: Seq<RegisterPropertiesView>,
)
    requires
        table_is_consistent(table),
    ensures
        def_is_canonical(canonical_def(def, next, table), table),
{
    match def {
        IrDefView::Assign { var, value } => {
            lemma_canonical_write(var, value, next, def, table);
        },
        IrDefView::Load { var, address } => {
            lemma_canonical_write(var, address, next, def, table);
        },
        IrDefView::Store { address, value } => {
            lemma_canonical_expression_reads_no_sub_register(address, table);
            lemma_canonical_expression_reads_no_sub_register(value, table);
        },
    }
}

/// What is written in place of a write to `var` names no sub-register.
proof fn lemma_canonical_write(
    var: IrVariableView,
    value: IrExpressionView,
    next: Option<TermView<IrDefView>>,
    def: IrDefView,
    table: Seq<RegisterPropertiesView>,
)
    requires
        table_is_consistent(table),
    ensures
        sub_register(table, canonical_target(var, table).name) is None,
        !reads_sub_register(
            canonical_source(
                var,
                value,
                is_followed_by_zero_extension(def, next, table),
                table,
            ),
            table,
        ),
{
    lemma_canonical_expression_reads_no_sub_register(value, table);
    let inner = canonical_expression(value, table);
    if sub_register(table, var.name) is Some {
        lemma_base_of_sub_register(table, var.name);
        let record = sub_register(table, var.name)->Some_0;
        let base = IrExpressionView::Var(base_variable(table, record));
        assert(!reads_sub_register(base, table));
        let below = IrExpressionView::Subpiece {
            low_byte: ByteSize(0),
            size: record.lsb,
            arg: Box::new(base),
        };
        let above = IrExpressionView::Subpiece {
            low_byte: ByteSize((record.lsb.0 + record.size.0) as u64),
            size: ByteSize((base_variable(table, record).size.0 - (record.lsb.0 + record.size.0)) as u64),
            arg: Box::new(base),
        };
        assert(!reads_sub_register(below, table));
        assert(!reads_sub_register(above, table));
        let upper = IrExpressionView::BinOp {
            op: BinOpType::Piece,
            lhs: Box::new(above),
            rhs: Box::new(inner),
        };
        assert(!reads_sub_register(upper, table));
    }
}

/// In canonical form, no instruction and no jump of a block writes or
/// reads a sub-register.
pub proof fn lemma_canonical_blk_is_canonical(blk: IrBlkView, table: Seq<RegisterPropertiesView>)
    requires
        table_is_consistent(table),
    ensures
        blk_is_canonical(canonical_blk(blk, table), table),
{
    let out = canonical_blk(blk, table);
    let all = Seq::new(blk.defs.len(), |i: int| rewritten_def(blk.defs, i, table));
    let keep = |d: TermView<IrDefView>| !is_redundant(blk.defs, table, d.tid);
    assert forall|i: int| 0 <= i < out.defs.len() implies def_is_canonical(
        #[trigger] out.defs[i].term,
        table,
    ) by {
        all.lemma_filter_contains_rev(keep, out.defs[i]);
        let k = choose|k: int| 0 <= k < all.len() && all[k] == out.defs[i];
        lemma_canonical_def_is_canonical(blk.defs[k].term, next_def(blk.defs, k), table);
    }
    assert forall|i: int| 0 <= i < out.jmps.len() implies jmp_is_canonical(
        #[trigger] out.jmps[i].term,
        table,
    ) by {
        lemma_canonical_jmp_is_canonical(blk.jmps[i].term, table);
    }
}

/// In canonical form, a jump reads no sub-register.
pub proof fn lemma_canonical_jmp_is_canonical(jmp: IrJmpView, table: Seq<RegisterPropertiesView>)
    requires
        table_is_consistent(table),
    ensures
        jmp_is_canonical(canonical_jmp(jmp, table), table),
{
    match jmp {
        IrJmpView::BranchInd(target) => {
            lemma_canonical_expression_reads_no_sub_register(target, table);
        },
        IrJmpView::CBranch { target, condition } => {
            lemma_canonical_expression_reads_no_sub_register(condition, table);
        },
        IrJmpView::CallInd { target, return_ } => {
            lemma_canonical_expression_reads_no_sub_register(target, table);
        },
        IrJmpView::Return(target) => {
            lemma_canonical_expression_reads_no_sub_register(target, table);
        },
        _ => {},
    }
}

/// No block of a project that the conversion emits writes or reads a
/// sub-register of the register table of the project.
pub proof fn lemma_emitted_program_is_canonical(project: ProjectView, binary_base_address: u64)
    requires
        project.lifted(binary_base_address) is Ok,
    ensures
        program_is_canonical(
            project.lifted(binary_base_address)->Ok_0.program.term,
            project.register_properties,
        ),
{
    reveal(ProjectView::lifted);
    let table = project.register_properties;
    let lifted = project.program.term.lifted(binary_base_address)->Ok_0;
    let program = project.lifted(binary_base_address)->Ok_0.program.term;
    assert forall|i: int, j: int|
        0 <= i < program.subs.len() && 0 <= j
            < program.subs[i].term.blocks.len() implies blk_is_canonical(
        (#[trigger] program.subs[i].term.blocks[j]).term,
        table,
    ) by {
        lemma_canonical_blk_is_canonical(lifted.subs[i].term.blocks[j].term, table);
    }
}

/// Where an instruction writes a sub-register and the next one assigns
/// the zero extension of that sub-register to its base register, the
/// canonical block holds no instruction with the identifier of the
/// second, and the first writes the zero extension of its value to the
/// base register.
pub proof fn lemma_zero_extension_is_removed(
    defs: Seq<TermView<IrDefView>>,
    i: int,
    table: Seq<RegisterPropertiesView>,
)
    requires
        0 <= i && i + 1 < defs.len(),
        defs[i].term is Assign,
        sub_register(table, defs[i].term->Assign_var.name) is Some,
        zero_extends(
            defs[i + 1].term,
            sub_register(table, defs[i].term->Assign_var.name)->Some_0.base_register,
            defs[i].term->Assign_var.name,
        ),
    ensures
        forall|k: int|
            0 <= k < canonical_defs(defs, table).len() ==> (#[trigger] canonical_defs(
                defs,
                table,
            )[k]).tid != defs[i + 1].tid,
        ({
            let var = defs[i].term->Assign_var;
            let value = defs[i].term->Assign_value;
            let record = sub_register(table, var.name)->Some_0;
            let base = base_variable(table, record);
            &&& rewritten_def(defs, i, table).tid == defs[i].tid
            &&& rewritten_def(defs, i, table).term == IrDefView::Assign {
                var: IrVariableView { name: base.name, size: base.size, is_temp: var.is_temp },
                value: IrExpressionView::Cast {
                    op: CastOpType::IntZExt,
                    size: base.size,
                    arg: Box::new(canonical_expression(value, table)),
                },
            }
            &&& !is_redundant(defs, table, defs[i].tid) ==> canonical_defs(defs, table).contains(
                rewritten_def(defs, i, table),
            )
        }),
{
    let all = Seq::new(defs.len(), |k: int| rewritten_def(defs, k, table));
    let keep = |d: TermView<IrDefView>| !is_redundant(defs, table, d.tid);
    let out = canonical_defs(defs, table);
    assert(marked_at(defs, i, table) == Some(defs[i + 1].tid));
    assert(is_redundant(defs, table, defs[i + 1].tid));
    assert forall|k: int| 0 <= k < out.len() implies (#[trigger] out[k]).tid != defs[i + 1].tid by {
        all.lemma_filter_pred(keep, k);
    }
    if !is_redundant(defs, table, defs[i].tid) {
        assert(keep(all[i]));
        all.lemma_filter_contains(keep, i);
    }
}

/// A filter that every element passes keeps the sequence as it is.
pub proof fn lemma_filter_keeps_all<A>(s: Seq<A>, p: spec_fn(A) -> bool)
    requires
        forall|i: int| 0 <= i < s.len() ==> p(#[trigger] s[i]),
    ensures
        s.filter(p) == s,
    decreases s.len(),
{
    reveal(Seq::filter);
    if s.len() > 0 {
        let rest = s.drop_last();
        lemma_filter_keeps_all(rest, p);
    }
}

/// The pass leaves an expression that reads no sub-register as it is.
pub proof fn lemma_canonical_expression_is_kept(
    e: IrExpressionView,
    table: Seq<RegisterPropertiesView>,
)
    requires
        !reads_sub_register(e, table),
    ensures
        canonical_expression(e, table) == e,
    decreases e,
{
    match e {
        IrExpressionView::Var(_) => {},
        IrExpressionView::Const(_) => {},
        IrExpressionView::BinOp { op, lhs, rhs } => {
            lemma_canonical_expression_is_kept(*lhs, table);
            lemma_canonical_expression_is_kept(*rhs, table);
        },
        IrExpressionView::UnOp { op, arg } => {
            lemma_canonical_expression_is_kept(*arg, table);
        },
        IrExpressionView::Cast { op, size, arg } => {
            lemma_canonical_expression_is_kept(*arg, table);
        },
        IrExpressionView::Subpiece { low_byte, size, arg } => {
            lemma_canonical_expression_is_kept(*arg, table);
        },
    }
}

/// The pass leaves an instruction that neither writes nor reads a
/// sub-register as it is, and such an instruction marks nothing as
/// redundant.
pub proof fn lemma_canonical_def_is_kept(
    def: IrDefView,
    next: Option<TermView<IrDefView>>,
    table: Seq<RegisterPropertiesView>,
)
    requires
        def_is_canonical(def, table),
    ensures
        canonical_def(def, next, table) == def,
        !is_followed_by_zero_extension(def, next, table),
{
    match def {
        IrDefView::Assign { var, value } => {
            lemma_canonical_expression_is_kept(value, table);
        },
        IrDefView::Load { var, address } => {
            lemma_canonical_expression_is_kept(address, table);
        },
        IrDefView::Store { address, value } => {
            lemma_canonical_expression_is_kept(address, table);
            lemma_canonical_expression_is_kept(value, table);
        },
    }
}

/// The pass leaves a jump that reads no sub-register as it is.
pub proof fn lemma_canonical_jmp_is_kept(jmp: IrJmpView, table: Seq<RegisterPropertiesView>)
    requires
        jmp_is_canonical(jmp, table),
    ensures
        canonical_jmp(jmp, table) == jmp,
{
    match jmp {
        IrJmpView::BranchInd(target) => {
            lemma_canonical_expression_is_kept(target, table);
        },
        IrJmpView::CBranch { target, condition } => {
            lemma_canonical_expression_is_kept(condition, table);
        },
        IrJmpView::CallInd { target, return_ } => {
            lemma_canonical_expression_is_kept(target, table);
        },
        IrJmpView::Return(target) => {
            lemma_canonical_expression_is_kept(target, table);
        },
        _ => {},
    }
}

/// The pass leaves a block in which nothing writes or reads a
/// sub-register as it is. So the pass changes nothing when it is run a
/// second time.
pub proof fn lemma_canonical_blk_is_kept(blk: IrBlkView, table: Seq<RegisterPropertiesView>)
    requires
        blk_is_canonical(blk, table),
    ensures
        canonical_blk(blk, table) == blk,
{
    let all = Seq::new(blk.defs.len(), |i: int| rewritten_def(blk.defs, i, table));
    let keep = |d: TermView<IrDefView>| !is_redundant(blk.defs, table, d.tid);
    assert forall|i: int| 0 <= i < blk.defs.len() implies all[i] == blk.defs[i] by {
        lemma_canonical_def_is_kept(blk.defs[i].term, next_def(blk.defs, i), table);
    }
    assert(all =~= blk.defs);
    lemma_filter_keeps_all(all, keep);
    assert forall|i: int| 0 <= i < blk.jmps.len() implies canonical_jmp_term(blk.jmps[i], table)
        == blk.jmps[i] by {
        lemma_canonical_jmp_is_kept(blk.jmps[i].term, table);
    }
    assert(canonical_blk(blk, table).jmps =~= blk.jmps);
}

} // verus!
