//! The recursive term node: a leaf wrapping one value, or a branch holding
//! an ordered sequence of child terms.

use vstd::prelude::*;

use crate::value::{TermValue, UnitValue, value_eq};

verus! {

/// A node in the evaluator's uniform expression/value tree.
///
/// A term is exactly one of two shapes, fixed at construction: a leaf
/// holding one atomic value and no children, or a branch holding an ordered
/// sequence of child terms and no value of its own. The invariant holds by
/// construction; no other shape is representable.
///
/// A branch exclusively owns its children: the tree is strictly
/// hierarchical, with no sharing and no cycles.
#[derive(Debug)]
pub enum Term {
    Leaf(TermValue),
    Branch(Vec<Term>),
}

impl Term {
    /// The direct children: a leaf has none, a branch has its sequence.
    pub open spec fn children(self) -> Seq<Term> {
        match self {
            Term::Leaf(_) => Seq::empty(),
            Term::Branch(cs) => cs@,
        }
    }

    /// Whether the term is a compound expression: its child sequence is
    /// non-empty. This is the sole operational shape test dispatch code
    /// relies on.
    pub open spec fn spec_is_branch(self) -> bool {
        self.children().len() > 0
    }

    /// The number of direct children.
    pub open spec fn spec_len(self) -> nat {
        self.children().len()
    }

    /// The default leaf: the "ignore / no value" placeholder.
    ///
    /// A default-constructed term and a leaf explicitly wrapping the unit
    /// sentinel are the very same value, so they compare equal and render
    /// identically.
    pub fn new() -> (t: Term)
        ensures
            t == Term::Leaf(TermValue::Unit(UnitValue::Ignore)),
    {
        Term::Leaf(TermValue::Unit(UnitValue::Ignore))
    }

    /// True iff the term is a compound expression with at least one child.
    pub fn is_branch(&self) -> (r: bool)
        ensures
            r == self.spec_is_branch(),
    {
        match self {
            Term::Leaf(_) => false,
            Term::Branch(cs) => cs.len() > 0,
        }
    }

    /// The number of direct children; 0 for any leaf.
    pub fn len(&self) -> (n: usize)
        ensures
            n == self.spec_len(),
    {
        match self {
            Term::Leaf(_) => 0,
            Term::Branch(cs) => cs.len(),
        }
    }
}

impl Default for Term {
    fn default() -> (t: Term)
        ensures
            t == Term::Leaf(TermValue::Unit(UnitValue::Ignore)),
    {
        Term::new()
    }
}

/// Structural, deep term equality: same shape and, recursively, equal
/// values (leaves) or pointwise equal children (branches).
pub open spec fn deep_eq(a: Term, b: Term) -> bool
    decreases a,
{
    match (a, b) {
        (Term::Leaf(v), Term::Leaf(w)) => value_eq(v, w),
        (Term::Branch(x), Term::Branch(y)) => x@.len() == y@.len() && (forall|i: int|
            0 <= i < x@.len() ==> deep_eq(#[trigger] x@[i], y@[i])),
        _ => false,
    }
}

impl PartialEq for Term {
    fn eq(&self, other: &Term) -> (r: bool)
        decreases *self,
    {
        match (self, other) {
            (Term::Leaf(v), Term::Leaf(w)) => v == w,
            (Term::Branch(x), Term::Branch(y)) => {
                if x.len() != y.len() {
                    return false;
                }
                let mut i: usize = 0;
                while i < x.len()
                    invariant
                        i <= x@.len(),
                        x@.len() == y@.len(),
                        *self == Term::Branch(*x),
                        *other == Term::Branch(*y),
                        forall|j: int| 0 <= j < i ==> deep_eq(#[trigger] x@[j], y@[j]),
                    decreases x@.len() - i,
                {
                    proof {
                        assert(decreases_to!(*self => self->Branch_0));
                        assert(decreases_to!(self->Branch_0 => self->Branch_0@));
                        assert(decreases_to!(self->Branch_0@ => self->Branch_0@[i as int]));
                        assert(decreases_to!(*self => x@[i as int]));
                    }
                    if !(x[i] == y[i]) {
                        return false;
                    }
                    i += 1;
                }
                true
            },
            _ => false,
        }
    }
}

impl vstd::std_specs::cmp::PartialEqSpecImpl for Term {
    open spec fn obeys_eq_spec() -> bool {
        true
    }

    open spec fn eq_spec(&self, other: &Term) -> bool {
        deep_eq(*self, *other)
    }
}

impl Eq for Term {}

impl Clone for Term {
    /// A cloned term is structurally equal to the original.
    fn clone(&self) -> (t: Term)
        ensures
            deep_eq(t, *self),
        decreases *self,
    {
        match self {
            Term::Leaf(v) => Term::Leaf(v.clone()),
            Term::Branch(cs) => {
                let mut copied: Vec<Term> = Vec::new();
                let mut i: usize = 0;
                while i < cs.len()
                    invariant
                        i <= cs@.len(),
                        *self == Term::Branch(*cs),
                        copied@.len() == i,
                        forall|j: int| 0 <= j < i ==> deep_eq(#[trigger] copied@[j], cs@[j]),
                    decreases cs@.len() - i,
                {
                    proof {
                        assert(decreases_to!(*self => self->Branch_0));
                        assert(decreases_to!(self->Branch_0 => self->Branch_0@));
                        assert(decreases_to!(self->Branch_0@ => self->Branch_0@[i as int]));
                        assert(decreases_to!(*self => cs@[i as int]));
                    }
                    let c = cs[i].clone();
                    copied.push(c);
                    i += 1;
                }
                Term::Branch(copied)
            },
        }
    }
}

} // verus!
