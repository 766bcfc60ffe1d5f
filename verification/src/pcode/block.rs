//! Basic blocks and functions of P-Code, and their conversion.

use crate::error::{
    lemma_try_map_fails_at, lemma_try_map_succeeds, outcome, try_map, LiftError,
};
use crate::ir::instruction::{
    IrBlk, IrBlkView, IrDef, IrDefView, IrJmp, IrJmpView, IrSub, IrSubView,
};
use crate::pcode::instruction::{Def, DefView, Jmp, JmpView};
use crate::text::clone_texts;
use crate::tid::{Term, TermView};
use vstd::prelude::*;

verus! {

/// A basic block: definitions that run in order, and the jumps of which
/// at most one is taken after them.
#[derive(Debug, PartialEq, Eq, Hash, Clone)]
pub struct Blk {
    /// The definitions of the block in the order in which they run.
    pub defs: Vec<Term<Def>>,
    /// The jumps at the end of the block.
    pub jmps: Vec<Term<Jmp>>,
}

/// The mathematical value of a [`Blk`].
pub ghost struct BlkView {
    pub defs: Seq<TermView<DefView>>,
    pub jmps: Seq<TermView<JmpView>>,
}

impl DeepView for Blk {
    type V = BlkView;

    open spec fn deep_view(&self) -> BlkView {
        BlkView { defs: self.defs.deep_view(), jmps: self.jmps.deep_view() }
    }
}

/// The instruction term that a definition term stands for.
pub open spec fn lifted_def_term(def: TermView<DefView>) -> Result<TermView<IrDefView>, LiftError> {
    def.carrying(def.term.lifted())
}

/// The jump term of the intermediate representation that a jump term
/// stands for.
pub open spec fn lifted_jmp_term(jmp: TermView<JmpView>) -> Result<TermView<IrJmpView>, LiftError> {
    jmp.carrying(jmp.term.lifted())
}

/// The hints of the first jump that has any, or no hints where no jump
/// has one.
pub open spec fn first_hints(jmps: Seq<TermView<JmpView>>) -> Seq<Seq<char>>
    decreases jmps.len(),
{
    if jmps.len() == 0 {
        Seq::empty()
    } else {
        match jmps[0].term.target_hints {
            Some(hints) => if hints.len() > 0 {
                hints
            } else {
                first_hints(jmps.skip(1))
            },
            None => first_hints(jmps.skip(1)),
        }
    }
}

impl BlkView {
    /// The block of the intermediate representation that the block
    /// stands for: its definitions and jumps, each converted, in their
    /// order, and the hints of the first jump that has any. The first
    /// definition that cannot be converted decides the error, and the
    /// first such jump where all definitions can.
    #[verifier::opaque]
    pub open spec fn lifted(self) -> Result<IrBlkView, LiftError> {
        match try_map(self.defs, |d: TermView<DefView>| lifted_def_term(d)) {
            Err(e) => Err(e),
            Ok(defs) => match try_map(self.jmps, |j: TermView<JmpView>| lifted_jmp_term(j)) {
                Err(e) => Err(e),
                Ok(jmps) => Ok(
                    IrBlkView { defs, jmps, indirect_jmp_targets: first_hints(self.jmps) },
                ),
            },
        }
    }
}

/// Converts definition terms, in their order.
pub fn lift_defs(defs: &Vec<Term<Def>>) -> (r: Result<Vec<Term<IrDef>>, LiftError>)
    ensures
        outcome(r) == try_map(defs.deep_view(), |d: TermView<DefView>| lifted_def_term(d)),
{
    let ghost f = |d: TermView<DefView>| lifted_def_term(d);
    let mut out: Vec<Term<IrDef>> = Vec::new();
    let mut i: usize = 0;
    while i < defs.len()
        invariant
            i <= defs.len(),
            out.len() == i,
            f == |d: TermView<DefView>| lifted_def_term(d),
            forall|k: int|
                0 <= k < i ==> (#[trigger] f(defs.deep_view()[k])) == Ok::<
                    TermView<IrDefView>,
                    LiftError,
                >(out.deep_view()[k]),
        decreases defs.len() - i,
    {
        let ghost before = out.deep_view();
        match defs[i].term.to_ir_def() {
            Ok(term) => {
                out.push(Term { tid: defs[i].tid.clone(), term });
            },
            Err(e) => {
                proof {
                    let s = defs.deep_view();
                    assert forall|k: int| 0 <= k < s.take(i as int).len() implies (#[trigger] f(
                        s.take(i as int)[k],
                    )) is Ok by {
                        assert(f(s[k]) is Ok);
                    }
                    lemma_try_map_fails_at(s, f, i as int);
                }
                return Err(e);
            },
        }
        proof {
            assert forall|k: int| 0 <= k < i + 1 implies (#[trigger] f(defs.deep_view()[k]))
                == Ok::<TermView<IrDefView>, LiftError>(out.deep_view()[k]) by {
                if k < i {
                    assert(out.deep_view()[k] == before[k]);
                }
            }
        }
        i += 1;
    }
    proof {
        lemma_try_map_succeeds(defs.deep_view(), f, out.deep_view());
    }
    Ok(out)
}

/// Converts jump terms, in their order.
pub fn lift_jmps(jmps: &Vec<Term<Jmp>>) -> (r: Result<Vec<Term<IrJmp>>, LiftError>)
    ensures
        outcome(r) == try_map(jmps.deep_view(), |j: TermView<JmpView>| lifted_jmp_term(j)),
{
    let ghost f = |j: TermView<JmpView>| lifted_jmp_term(j);
    let mut out: Vec<Term<IrJmp>> = Vec::new();
    let mut i: usize = 0;
    while i < jmps.len()
        invariant
            i <= jmps.len(),
            out.len() == i,
            f == |j: TermView<JmpView>| lifted_jmp_term(j),
            forall|k: int|
                0 <= k < i ==> (#[trigger] f(jmps.deep_view()[k])) == Ok::<
                    TermView<IrJmpView>,
                    LiftError,
                >(out.deep_view()[k]),
        decreases jmps.len() - i,
    {
        let ghost before = out.deep_view();
        match jmps[i].term.to_ir_jmp() {
            Ok(term) => {
                out.push(Term { tid: jmps[i].tid.clone(), term });
            },
            Err(e) => {
                proof {
                    let s = jmps.deep_view();
                    assert forall|k: int| 0 <= k < s.take(i as int).len() implies (#[trigger] f(
                        s.take(i as int)[k],
                    )) is Ok by {
                        assert(f(s[k]) is Ok);
                    }
                    lemma_try_map_fails_at(s, f, i as int);
                }
                return Err(e);
            },
        }
        proof {
            assert forall|k: int| 0 <= k < i + 1 implies (#[trigger] f(jmps.deep_view()[k]))
                == Ok::<TermView<IrJmpView>, LiftError>(out.deep_view()[k]) by {
                if k < i {
                    assert(out.deep_view()[k] == before[k]);
                }
            }
        }
        i += 1;
    }
    proof {
        lemma_try_map_succeeds(jmps.deep_view(), f, out.deep_view());
    }
    Ok(out)
}

/// The hints of the first jump that has any.
pub fn collect_hints(jmps: &Vec<Term<Jmp>>) -> (r: Vec<String>)
    ensures
        r.deep_view() == first_hints(jmps.deep_view()),
{
    let ghost s = jmps.deep_view();
    let mut i: usize = 0;
    assert(s.skip(0) =~= s);
    while i < jmps.len()
        invariant
            i <= jmps.len(),
            s == jmps.deep_view(),
            first_hints(s) == first_hints(s.skip(i as int)),
        decreases jmps.len() - i,
    {
        proof {
            assert(s.skip(i as int).skip(1) =~= s.skip(i + 1));
        }
        match &jmps[i].term.target_hints {
            Some(hints) => {
                if hints.len() > 0 {
                    return clone_texts(hints);
                }
            },
            None => {},
        }
        i += 1;
    }
    let out: Vec<String> = Vec::new();
    out
}

impl Blk {
    /// Converts the block into the block of the intermediate
    /// representation that it stands for.
    pub fn to_ir_blk(&self) -> (r: Result<IrBlk, LiftError>)
        ensures
            outcome(r) == self.deep_view().lifted(),
    {
        reveal(BlkView::lifted);
        let defs = match lift_defs(&self.defs) {
            Ok(defs) => defs,
            Err(e) => {
                return Err(e);
            },
        };
        let indirect_jmp_targets = collect_hints(&self.jmps);
        match lift_jmps(&self.jmps) {
            Ok(jmps) => Ok(IrBlk { defs, jmps, indirect_jmp_targets }),
            Err(e) => Err(e),
        }
    }
}

/// A function: its name and its basic blocks. The block that the function
/// is entered at need not come first.
#[derive(Debug, PartialEq, Eq, Hash, Clone)]
pub struct Sub {
    /// The name of the function.
    pub name: String,
    /// The basic blocks of the function.
    pub blocks: Vec<Term<Blk>>,
}

/// The mathematical value of a [`Sub`].
pub ghost struct SubView {
    pub name: Seq<char>,
    pub blocks: Seq<TermView<BlkView>>,
}

impl DeepView for Sub {
    type V = SubView;

    open spec fn deep_view(&self) -> SubView {
        SubView { name: self.name@, blocks: self.blocks.deep_view() }
    }
}

/// The block at position `i` lies at the address of the function.
pub open spec fn is_entry_at(sub: TermView<SubView>, i: int) -> bool {
    0 <= i < sub.term.blocks.len() && sub.term.blocks[i].tid.address == sub.tid.address
}

/// Some block of the function lies at the address of the function.
pub open spec fn has_entry_block(sub: TermView<SubView>) -> bool {
    exists|i: int| is_entry_at(sub, i)
}

/// The position of the first block that lies at the address of the
/// function.
pub open spec fn entry_position(sub: TermView<SubView>) -> int {
    choose|i: int| is_entry_at(sub, i) && forall|j: int| 0 <= j < i ==> !is_entry_at(sub, j)
}

/// The blocks of the function with the entry block in the first place:
/// where another block stands there, it changes places with the first
/// block that lies at the address of the function. A function with code
/// and without such a block is an error.
pub open spec fn entry_first(sub: TermView<SubView>) -> Result<Seq<TermView<BlkView>>, LiftError> {
    let blocks = sub.term.blocks;
    if blocks.len() == 0 || is_entry_at(sub, 0) {
        Ok(blocks)
    } else if has_entry_block(sub) {
        let i = entry_position(sub);
        Ok(blocks.update(0, blocks[i]).update(i, blocks[0]))
    } else {
        Err(LiftError::MissingEntryBlock)
    }
}

/// The block term of the intermediate representation that a block term
/// stands for.
pub open spec fn lifted_blk_term(blk: TermView<BlkView>) -> Result<TermView<IrBlkView>, LiftError> {
    blk.carrying(blk.term.lifted())
}

/// The function of the intermediate representation that a function
/// stands for: its blocks, entry block first, each converted.
#[verifier::opaque]
pub open spec fn lifted_sub(sub: TermView<SubView>) -> Result<TermView<IrSubView>, LiftError> {
    match entry_first(sub) {
        Err(e) => Err(e),
        Ok(ordered) => match try_map(ordered, |b: TermView<BlkView>| lifted_blk_term(b)) {
            Err(e) => Err(e),
            Ok(blocks) => Ok(
                TermView { tid: sub.tid, term: IrSubView { name: sub.term.name, blocks } },
            ),
        },
    }
}

/// The position that stands at `k` once the positions 0 and `entry` have
/// changed places.
pub open spec fn swapped(entry: int, k: int) -> int {
    if k == 0 {
        entry
    } else if k == entry {
        0
    } else {
        k
    }
}

/// If a block lies at the address of the function and none before it
/// does, its position is the entry position.
pub proof fn lemma_entry_position(sub: TermView<SubView>, i: int)
    requires
        is_entry_at(sub, i),
        forall|j: int| 0 <= j < i ==> !is_entry_at(sub, j),
    ensures
        has_entry_block(sub),
        entry_position(sub) == i,
{
    let k = entry_position(sub);
    assert(is_entry_at(sub, k) && forall|j: int| 0 <= j < k ==> !is_entry_at(sub, j));
    if k < i {
        assert(!is_entry_at(sub, k));
    }
    if i < k {
        assert(!is_entry_at(sub, i));
    }
}

/// If some block lies at the address of the function, the entry position
/// is the position of the first such block.
pub proof fn lemma_entry_position_is_first(sub: TermView<SubView>, i: int)
    requires
        is_entry_at(sub, i),
    ensures
        is_entry_at(sub, entry_position(sub)),
        entry_position(sub) <= i,
        forall|j: int| 0 <= j < entry_position(sub) ==> !is_entry_at(sub, j),
    decreases i,
{
    if exists|j: int| 0 <= j < i && is_entry_at(sub, j) {
        let j = choose|j: int| 0 <= j < i && is_entry_at(sub, j);
        lemma_entry_position_is_first(sub, j);
    } else {
        lemma_entry_position(sub, i);
    }
}

/// Converts a block term.
pub fn lift_blk_term(blk: &Term<Blk>) -> (r: Result<Term<IrBlk>, LiftError>)
    ensures
        outcome(r) == lifted_blk_term(blk.deep_view()),
{
    match blk.term.to_ir_blk() {
        Ok(term) => Ok(Term { tid: blk.tid.clone(), term }),
        Err(e) => Err(e),
    }
}

/// Finds the first block that lies at the address of the function.
pub fn find_entry(sub: &Term<Sub>) -> (r: Option<usize>)
    ensures
        match r {
            Some(i) => has_entry_block(sub.deep_view()) && entry_position(sub.deep_view()) == i
                && is_entry_at(sub.deep_view(), i as int),
            None => !has_entry_block(sub.deep_view()),
        },
{
    let ghost view = sub.deep_view();
    let n = sub.term.blocks.len();
    let mut i: usize = 0;
    while i < n
        invariant
            i <= n,
            n == sub.term.blocks.len(),
            view == sub.deep_view(),
            forall|j: int| 0 <= j < i ==> !is_entry_at(view, j),
        decreases n - i,
    {
        if sub.term.blocks[i].tid.address == sub.tid.address {
            proof {
                lemma_entry_position(view, i as int);
            }
            return Some(i);
        }
        i += 1;
    }
    None
}

/// Converts a function into the function of the intermediate
/// representation that it stands for, with its entry block first.
pub fn lift_sub(sub: &Term<Sub>) -> (r: Result<Term<IrSub>, LiftError>)
    ensures
        outcome(r) == lifted_sub(sub.deep_view()),
{
    reveal(lifted_sub);
    let ghost view = sub.deep_view();
    let ghost f = |b: TermView<BlkView>| lifted_blk_term(b);
    let n = sub.term.blocks.len();
    let entry: usize = if n == 0 {
        0
    } else {
        match find_entry(sub) {
            Some(i) => i,
            None => {
                assert(!is_entry_at(view, 0));
                return Err(LiftError::MissingEntryBlock);
            },
        }
    };
    let ghost ordered = entry_first(view)->Ok_0;
    let ghost blocks = view.term.blocks;
    proof {
        if n > 0 {
            if entry == 0 {
                assert(is_entry_at(view, 0));
            } else {
                assert(!is_entry_at(view, 0));
            }
        }
        assert(entry_first(view) is Ok);
        assert(ordered.len() == n);
        assert forall|k: int| 0 <= k < n implies #[trigger] ordered[k] == blocks[swapped(
            entry as int,
            k,
        )] by {}
    }
    let mut out: Vec<Term<IrBlk>> = Vec::new();
    let mut i: usize = 0;
    while i < n
        invariant
            i <= n,
            n == sub.term.blocks.len(),
            n > 0 ==> entry < n,
            blocks == sub.term.blocks.deep_view(),
            view == sub.deep_view(),
            entry_first(view) == Ok::<Seq<TermView<BlkView>>, LiftError>(ordered),
            ordered.len() == n,
            forall|k: int| 0 <= k < n ==> #[trigger] ordered[k] == blocks[swapped(entry as int, k)],
            out.len() == i,
            f == |b: TermView<BlkView>| lifted_blk_term(b),
            forall|k: int|
                0 <= k < i ==> (#[trigger] f(ordered[k])) == Ok::<TermView<IrBlkView>, LiftError>(
                    out.deep_view()[k],
                ),
        decreases n - i,
    {
        let ghost before = out.deep_view();
        let source: usize = if i == 0 {
            entry
        } else if i == entry {
            0
        } else {
            i
        };
        assert(source == swapped(entry as int, i as int));
        assert(ordered[i as int] == blocks[source as int]);
        assert(blocks[source as int] == sub.term.blocks[source as int].deep_view());
        match lift_blk_term(&sub.term.blocks[source]) {
            Ok(term) => {
                out.push(term);
            },
            Err(e) => {
                proof {
                    assert forall|k: int| 0 <= k < ordered.take(i as int).len() implies (
                    #[trigger] f(ordered.take(i as int)[k])) is Ok by {
                        assert(f(ordered[k]) is Ok);
                    }
                    lemma_try_map_fails_at(ordered, f, i as int);
                    reveal(lifted_sub);
                }
                return Err(e);
            },
        }
        proof {
            assert forall|k: int| 0 <= k < i + 1 implies (#[trigger] f(ordered[k])) == Ok::<
                TermView<IrBlkView>,
                LiftError,
            >(out.deep_view()[k]) by {
                if k < i {
                    assert(out.deep_view()[k] == before[k]);
                }
            }
        }
        i += 1;
    }
    proof {
        lemma_try_map_succeeds(ordered, f, out.deep_view());
    }
    Ok(Term { tid: sub.tid.clone(), term: IrSub { name: sub.term.name.clone(), blocks: out } })
}

} // verus!
