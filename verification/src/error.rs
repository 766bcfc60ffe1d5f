//! The ways in which a conversion can fail.

use vstd::prelude::*;

verus! {

/// A fatal structural error: the input violates the format that the
/// conversion relies on, and no intermediate representation exists for it.
#[derive(Debug, Clone, Copy, PartialEq, Eq, Hash, Structural)]
pub enum LiftError {
    /// A jump label is direct where the mnemonic needs an indirect one, or
    /// indirect where it needs a direct one.
    LabelShape,
    /// A jump lacks the target label that its mnemonic needs.
    MissingLabel,
    /// A conditional branch lacks its condition.
    MissingCondition,
    /// A call jump lacks its call descriptor.
    MissingCall,
    /// A call descriptor lacks the target or the description that the
    /// mnemonic needs.
    MissingCallField,
    /// A definition lacks its target variable or an operand that its
    /// mnemonic needs.
    MissingOperand,
    /// An operand is neither a named register nor a constant, or it claims
    /// to be both.
    OperandShape,
    /// A mnemonic stands where only a side-effect-free computation can be
    /// lifted.
    NotAnExpression,
    /// A text that has to hold a hexadecimal number holds none, or one that
    /// does not fit its target.
    InvalidHex,
    /// A constant has a size of zero bytes, or one that exceeds the address
    /// space of the machine.
    ConstantSize,
    /// An argument has both a register and a stack location, or neither.
    ArgumentShape,
    /// The location of a stack argument is not a load from a constant
    /// address.
    StackLocation,
    /// A function with code has no block at the address of the function.
    MissingEntryBlock,
    /// The image base lies below the base address of the binary.
    ImageBase,
    /// The register table names a base register that it does not describe
    /// as one, or a sub-register that does not fit its base register.
    RegisterTable,
}

/// The mathematical value of a conversion result: the value of what was
/// produced, or the error as it is.
pub open spec fn outcome<T: DeepView>(r: Result<T, LiftError>) -> Result<T::V, LiftError> {
    match r {
        Ok(v) => Ok(v.deep_view()),
        Err(e) => Err(e),
    }
}

/// `f` succeeds on every element of `s`.
pub open spec fn all_ok<A, B>(s: Seq<A>, f: spec_fn(A) -> Result<B, LiftError>) -> bool {
    forall|i: int| 0 <= i < s.len() ==> (#[trigger] f(s[i])) is Ok
}

/// The position of the first element of `s` on which `f` fails.
pub open spec fn first_failure<A, B>(s: Seq<A>, f: spec_fn(A) -> Result<B, LiftError>) -> int {
    choose|i: int|
        0 <= i < s.len() && (#[trigger] f(s[i])) is Err && all_ok(s.take(i), f)
}

/// Applies `f` to the elements of `s` in order. The result holds what `f`
/// gave for each element; where `f` fails, the first failure is the
/// result.
pub open spec fn try_map<A, B>(s: Seq<A>, f: spec_fn(A) -> Result<B, LiftError>) -> Result<
    Seq<B>,
    LiftError,
> {
    if all_ok(s, f) {
        Ok(Seq::new(s.len(), |i: int| f(s[i])->Ok_0))
    } else {
        Err(f(s[first_failure(s, f)])->Err_0)
    }
}

/// If `f` fails at position `i` and nowhere before, the failure at `i` is
/// what `try_map` returns.
pub proof fn lemma_try_map_fails_at<A, B>(
    s: Seq<A>,
    f: spec_fn(A) -> Result<B, LiftError>,
    i: int,
)
    requires
        0 <= i < s.len(),
        f(s[i]) is Err,
        all_ok(s.take(i), f),
    ensures
        try_map(s, f) == Err::<Seq<B>, LiftError>(f(s[i])->Err_0),
{
    let k = first_failure(s, f);
    if k < i {
        assert(s.take(i)[k] == s[k]);
    }
    if i < k {
        assert(s.take(k)[i] == s[i]);
    }
}

/// If `f` succeeds on the first `n` elements and `out` holds the results,
/// and `n` is the length, then `out` is what `try_map` returns.
pub proof fn lemma_try_map_succeeds<A, B>(
    s: Seq<A>,
    f: spec_fn(A) -> Result<B, LiftError>,
    out: Seq<B>,
)
    requires
        out.len() == s.len(),
        forall|i: int| 0 <= i < s.len() ==> (#[trigger] f(s[i])) == Ok::<B, LiftError>(out[i]),
    ensures
        try_map(s, f) == Ok::<Seq<B>, LiftError>(out),
{
    assert(Seq::new(s.len(), |i: int| f(s[i])->Ok_0) =~= out);
}

/// An error of `try_map` is the error of `f` on some element.
pub proof fn lemma_try_map_error_has_source<A, B>(s: Seq<A>, f: spec_fn(A) -> Result<B, LiftError>)
    requires
        try_map(s, f) is Err,
    ensures
        exists|i: int|
            0 <= i < s.len() && (#[trigger] f(s[i])) == Err::<B, LiftError>(try_map(s, f)->Err_0),
{
    let i = choose|i: int| 0 <= i < s.len() && !((#[trigger] f(s[i])) is Ok);
    lemma_first_failure_exists(s, f, i);
    let k = first_failure(s, f);
    assert(f(s[k]) == Err::<B, LiftError>(try_map(s, f)->Err_0));
}

/// If `f` fails somewhere, it fails somewhere first.
pub proof fn lemma_first_failure_exists<A, B>(
    s: Seq<A>,
    f: spec_fn(A) -> Result<B, LiftError>,
    i: int,
)
    requires
        0 <= i < s.len(),
        f(s[i]) is Err,
    ensures
        0 <= first_failure(s, f) <= i,
        f(s[first_failure(s, f)]) is Err,
        all_ok(s.take(first_failure(s, f)), f),
    decreases i,
{
    if exists|j: int| 0 <= j < i && (#[trigger] f(s[j])) is Err {
        let j = choose|j: int| 0 <= j < i && (#[trigger] f(s[j])) is Err;
        lemma_first_failure_exists(s, f, j);
    } else {
        lemma_try_map_fails_at(s, f, i);
        let k = first_failure(s, f);
        if i < k {
            assert(s.take(k)[i] == s[i]);
        }
    }
}

} // verus!
