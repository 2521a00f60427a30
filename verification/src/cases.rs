//! The successor relation over a validated variant list, and the runtime
//! model of the declarations the synthesizer emits: the successor query and
//! the restartable "all cases" sequence carrier with its advance logic.

use vstd::prelude::*;
use crate::ast::Ident;

verus! {

/// The validated model of an enumerated input type: its variant names, in
/// declaration order exactly. Built once per generator invocation by the
/// declaration analyzer; non-empty by construction.
pub struct VariantList {
    pub names: Vec<Ident>,
}

impl View for VariantList {
    type V = Seq<Seq<char>>;

    open spec fn view(&self) -> Seq<Seq<char>> {
        self.names@.map(|i: int, id: Ident| id@)
    }
}

/// The successor relation at the level of positions: position `i` of a list
/// of length `n` maps to position `i + 1`, and the last position to the
/// terminal marker.
pub open spec fn successor_index(n: int, i: int) -> Option<int> {
    if i + 1 < n {
        Some(i + 1)
    } else {
        None
    }
}

/// The successor relation at the level of variant names: the name directly
/// following position `i` in declaration order, or the terminal marker at
/// the last position.
pub open spec fn successor_name(names: Seq<Seq<char>>, i: int) -> Option<Seq<char>> {
    match successor_index(names.len() as int, i) {
        Some(j) => Some(names[j]),
        None => None,
    }
}

/// The position a carrier holds, as a mathematical value.
pub open spec fn position_model(c: Option<usize>) -> Option<int> {
    match c {
        Some(i) => Some(i as int),
        None => None,
    }
}

/// One advance of the sequence carrier at the level of positions: a held
/// position moves to its successor; an exhausted carrier stays exhausted.
pub open spec fn advance_step(n: int, c: Option<int>) -> Option<int> {
    match c {
        Some(i) => successor_index(n, i),
        None => None,
    }
}

/// The position held after `k` advances of a carrier seeded at the first
/// position of a list of length `n`.
pub open spec fn position_after(n: int, k: nat) -> Option<int>
    decreases k,
{
    if k == 0 {
        Some(0)
    } else {
        advance_step(n, position_after(n, (k - 1) as nat))
    }
}

/// The value the advance after `k` earlier advances yields: the position it
/// consumes, or the terminal marker once the carrier is exhausted.
pub open spec fn yielded_at(n: int, k: nat) -> Option<int> {
    position_after(n, k)
}

/// The variant name that same advance yields.
pub open spec fn yielded_name_at(names: Seq<Seq<char>>, k: nat) -> Option<Seq<char>> {
    match yielded_at(names.len() as int, k) {
        Some(i) => Some(names[i]),
        None => None,
    }
}

impl VariantList {
    /// A variant list is well-formed when it is non-empty, as the analyzer
    /// guarantees.
    pub open spec fn wf(&self) -> bool {
        self@.len() >= 1
    }

    /// The number of variants.
    pub fn len(&self) -> (r: usize)
        ensures
            r == self@.len(),
    {
        self.names.len()
    }

    /// The variant name at position `i` in declaration order.
    pub fn name(&self, i: usize) -> (r: &Ident)
        requires
            i < self@.len(),
        ensures
            r@ == self@[i as int],
    {
        &self.names[i]
    }

    /// The successor query the emitted declarations implement: the variant
    /// directly following position `i` in declaration order, or absent when
    /// `i` is the last position.
    pub fn successor(&self, i: usize) -> (r: Option<&Ident>)
        requires
            i < self@.len(),
        ensures
            match r {
                Some(id) => successor_name(self@, i as int) == Some(id@),
                None => successor_name(self@, i as int) is None,
            },
    {
        let n = self.names.len();
        if i + 1 < n {
            Some(&self.names[i + 1])
        } else {
            None
        }
    }

    /// The "enumerate all cases" entry point the emitted declarations
    /// implement: a fresh sequence carrier seeded at the first variant.
    pub fn all_cases(&self) -> (r: CaseSequence)
        requires
            self.wf(),
        ensures
            r.count == self@.len(),
            r.position() == Some(0int),
            r.wf(),
    {
        CaseSequence::new(self.names.len(), 0)
    }
}

/// The runtime model of the emitted sequence-carrier type: the length of the
/// variant list it ranges over, and the current position, or the terminal
/// marker once exhausted.
pub struct CaseSequence {
    pub count: usize,
    pub current: Option<usize>,
}

impl CaseSequence {
    /// A held position always lies inside the variant list.
    pub open spec fn wf(&self) -> bool {
        match self.current {
            Some(i) => i < self.count,
            None => true,
        }
    }

    /// The held position as a mathematical value.
    pub open spec fn position(&self) -> Option<int> {
        position_model(self.current)
    }

    /// The emitted constructor: a carrier over `count` variants, positioned
    /// at the variant `from`, held as present.
    pub fn new(count: usize, from: usize) -> (r: Self)
        requires
            from < count,
        ensures
            r.count == count,
            r.position() == Some(from as int),
            r.wf(),
    {
        CaseSequence { count, current: Some(from) }
    }

    /// The emitted advance logic: when a position is held, yield it and move
    /// to its successor, or to the terminal marker from the last position;
    /// once exhausted, yield nothing and stay exhausted.
    pub fn advance(&mut self) -> (r: Option<usize>)
        requires
            old(self).wf(),
        ensures
            final(self).wf(),
            final(self).count == old(self).count,
            position_model(r) == old(self).position(),
            final(self).position() == advance_step(old(self).count as int, old(self).position()),
    {
        let r = self.current;
        match self.current {
            Some(i) => {
                self.current = if i + 1 < self.count {
                    Some(i + 1)
                } else {
                    None
                };
            },
            None => {},
        }
        r
    }
}

/// Law: the position held after `k` advances from the initial state is the
/// `k`-th position while `k` lies inside the list, and the terminal marker
/// from then on.
pub proof fn lemma_position_after(n: int, k: nat)
    requires
        n >= 1,
    ensures
        position_after(n, k) == if k < n {
            Some(k as int)
        } else {
            None::<int>
        },
    decreases k,
{
    if k > 0 {
        lemma_position_after(n, (k - 1) as nat);
    }
}

/// Law: the enumerate-all-cases sequence yields every variant exactly once,
/// in declaration order — the advance after `k` earlier advances yields the
/// name at position `k` — and once the list is spent it yields nothing,
/// forever. Advancing exactly `names.len()` times therefore reproduces the
/// variant list exactly.
pub proof fn lemma_enumerates_all(names: Seq<Seq<char>>, k: nat)
    requires
        names.len() >= 1,
    ensures
        k < names.len() ==> yielded_name_at(names, k) == Some(names[k as int]),
        k >= names.len() ==> yielded_name_at(names, k) is None,
{
    lemma_position_after(names.len() as int, k);
}

/// Law: the successor relation is total over the variant positions and maps
/// exactly one position — the last — to the terminal marker, which the first
/// position reaches by following the relation exactly `n - 1` times.
pub proof fn lemma_single_terminal(n: int, i: int)
    requires
        n >= 1,
        0 <= i < n,
    ensures
        (successor_index(n, i) is None) <==> i == n - 1,
        position_after(n, (n - 1) as nat) == Some(n - 1),
{
    lemma_position_after(n, (n - 1) as nat);
}

/// Law: a variant that is not last in declaration order has as successor
/// exactly the variant directly following it.
pub proof fn lemma_successor_present(names: Seq<Seq<char>>, i: int)
    requires
        0 <= i,
        i + 1 < names.len(),
    ensures
        successor_name(names, i) == Some(names[i + 1]),
{
}

/// Law: the last variant in declaration order has no successor.
pub proof fn lemma_successor_of_last_absent(names: Seq<Seq<char>>)
    requires
        names.len() >= 1,
    ensures
        successor_name(names, names.len() - 1) is None,
{
}

} // verus!
