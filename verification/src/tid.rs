//! Term identifiers and the generic term wrapper.

use crate::error::LiftError;
use vstd::prelude::*;
use vstd::string::StringExecFns;

verus! {

/// A stable identifier of a term: a unique name plus the address of the
/// instruction or block that the term belongs to.
#[derive(Debug, PartialEq, Eq, Hash)]
pub struct Tid {
    /// The unique name of the term.
    pub id: String,
    /// The address where the term is located.
    pub address: String,
}

/// The mathematical value of a [`Tid`].
pub ghost struct TidView {
    pub id: Seq<char>,
    pub address: Seq<char>,
}

impl DeepView for Tid {
    type V = TidView;

    open spec fn deep_view(&self) -> TidView {
        TidView { id: self.id@, address: self.address@ }
    }
}

impl TidView {
    /// The identifier that results from appending `suffix` to the name.
    pub open spec fn with_id_suffix(self, suffix: Seq<char>) -> TidView {
        TidView { id: self.id + suffix, address: self.address }
    }
}

/// Different suffixes make different identifiers of one identifier, and
/// a suffix that is not empty makes one that differs from the identifier
/// itself.
pub proof fn lemma_suffixes_keep_identifiers_apart(tid: TidView, a: Seq<char>, b: Seq<char>)
    ensures
        tid.with_id_suffix(a) == tid.with_id_suffix(b) ==> a == b,
        a.len() > 0 ==> tid.with_id_suffix(a) != tid,
        tid.with_id_suffix(a).address == tid.address,
{
    if tid.with_id_suffix(a) == tid.with_id_suffix(b) {
        let x = tid.id + a;
        let y = tid.id + b;
        assert(x.len() == y.len());
        assert forall|i: int| 0 <= i < a.len() implies a[i] == b[i] by {
            assert(x[tid.id.len() + i] == a[i]);
        }
    }
}

impl Clone for Tid {
    fn clone(&self) -> (r: Tid)
        ensures
            r == *self,
    {
        Tid { id: self.id.clone(), address: self.address.clone() }
    }
}

impl Tid {
    /// Creates a root identifier with the given name and an unknown address.
    pub fn new(id: &str) -> (r: Tid)
        ensures
            r.deep_view() == (TidView { id: id@, address: "UNKNOWN"@ }),
    {
        Tid { id: String::from_str(id), address: String::from_str("UNKNOWN") }
    }

    /// Derives a child identifier by appending `suffix` to the name. The
    /// address is kept.
    pub fn with_id_suffix(self, suffix: &str) -> (r: Tid)
        ensures
            r.deep_view() == self.deep_view().with_id_suffix(suffix@),
    {
        Tid { id: self.id.concat(suffix), address: self.address }
    }
}

/// A term: an identifier paired with the content that it names.
#[derive(Debug, PartialEq, Eq, Hash, Clone)]
pub struct Term<T> {
    /// The identifier of the term.
    pub tid: Tid,
    /// The content of the term.
    pub term: T,
}

/// The mathematical value of a [`Term`]: the identifier's value and the
/// content's value.
pub ghost struct TermView<V> {
    pub tid: TidView,
    pub term: V,
}

impl<V> TermView<V> {
    /// The term with the same identifier whose content is the outcome of
    /// a conversion of the content, or the error of that conversion.
    pub open spec fn carrying<W>(self, content: Result<W, LiftError>) -> Result<
        TermView<W>,
        LiftError,
    > {
        match content {
            Ok(term) => Ok(TermView { tid: self.tid, term }),
            Err(e) => Err(e),
        }
    }
}

impl<T: DeepView> DeepView for Term<T> {
    type V = TermView<T::V>;

    open spec fn deep_view(&self) -> TermView<T::V> {
        TermView { tid: self.tid.deep_view(), term: self.term.deep_view() }
    }
}

} // verus!
