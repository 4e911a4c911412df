//! The laws of the term representation, stated over the same spec
//! functions the executable contracts use, and proved once and for all.
//!
//! The round-trip law itself — wrapping a payload yields a term that holds
//! that variant with the payload unchanged — is a proof obligation of every
//! [`TermAccess`] instantiation (`wrap_round_trip`), so it is established
//! separately for each of the six variants. The lemmas here state what
//! cannot be said generically: that each wrapped leaf holds no *other*
//! variant, how shape tests behave, and when terms are equal.

use vstd::prelude::*;

use crate::access::TermAccess;
use crate::render::spec_render;
use crate::term::{Term, deep_eq};
use crate::value::{NativeFn, Symbol, TermValue, UnitValue, same_variant, value_eq};

verus! {

/// A wrapped boolean leaf holds only the boolean variant, so fallible
/// access as any of the five other variants reports the mismatch error.
pub proof fn lemma_bool_leaf_mismatch(v: bool)
    ensures
        ({
            let t = <Term as TermAccess<bool>>::wrap(v);
            &&& !<Term as TermAccess<i64>>::holds(&t)
            &&& !<Term as TermAccess<NativeFn>>::holds(&t)
            &&& !<Term as TermAccess<String>>::holds(&t)
            &&& !<Term as TermAccess<Symbol>>::holds(&t)
            &&& !<Term as TermAccess<UnitValue>>::holds(&t)
        }),
{
}

/// A wrapped integer leaf holds only the integer variant.
pub proof fn lemma_int_leaf_mismatch(v: i64)
    ensures
        ({
            let t = <Term as TermAccess<i64>>::wrap(v);
            &&& !<Term as TermAccess<bool>>::holds(&t)
            &&& !<Term as TermAccess<NativeFn>>::holds(&t)
            &&& !<Term as TermAccess<String>>::holds(&t)
            &&& !<Term as TermAccess<Symbol>>::holds(&t)
            &&& !<Term as TermAccess<UnitValue>>::holds(&t)
        }),
{
}

/// A wrapped primitive-callable leaf holds only that variant.
pub proof fn lemma_native_fn_leaf_mismatch(v: NativeFn)
    ensures
        ({
            let t = <Term as TermAccess<NativeFn>>::wrap(v);
            &&& !<Term as TermAccess<bool>>::holds(&t)
            &&& !<Term as TermAccess<i64>>::holds(&t)
            &&& !<Term as TermAccess<String>>::holds(&t)
            &&& !<Term as TermAccess<Symbol>>::holds(&t)
            &&& !<Term as TermAccess<UnitValue>>::holds(&t)
        }),
{
}

/// A wrapped string leaf holds only the string variant.
pub proof fn lemma_str_leaf_mismatch(v: String)
    ensures
        ({
            let t = <Term as TermAccess<String>>::wrap(v);
            &&& !<Term as TermAccess<bool>>::holds(&t)
            &&& !<Term as TermAccess<i64>>::holds(&t)
            &&& !<Term as TermAccess<NativeFn>>::holds(&t)
            &&& !<Term as TermAccess<Symbol>>::holds(&t)
            &&& !<Term as TermAccess<UnitValue>>::holds(&t)
        }),
{
}

/// A wrapped symbol leaf holds only the symbol variant.
pub proof fn lemma_sym_leaf_mismatch(v: Symbol)
    ensures
        ({
            let t = <Term as TermAccess<Symbol>>::wrap(v);
            &&& !<Term as TermAccess<bool>>::holds(&t)
            &&& !<Term as TermAccess<i64>>::holds(&t)
            &&& !<Term as TermAccess<NativeFn>>::holds(&t)
            &&& !<Term as TermAccess<String>>::holds(&t)
            &&& !<Term as TermAccess<UnitValue>>::holds(&t)
        }),
{
}

/// A wrapped unit-sentinel leaf holds only the unit variant.
pub proof fn lemma_unit_leaf_mismatch(v: UnitValue)
    ensures
        ({
            let t = <Term as TermAccess<UnitValue>>::wrap(v);
            &&& !<Term as TermAccess<bool>>::holds(&t)
            &&& !<Term as TermAccess<i64>>::holds(&t)
            &&& !<Term as TermAccess<NativeFn>>::holds(&t)
            &&& !<Term as TermAccess<String>>::holds(&t)
            &&& !<Term as TermAccess<Symbol>>::holds(&t)
        }),
{
}

/// Any leaf — default-constructed or wrapping any value — is no branch and
/// has no children.
pub proof fn lemma_leaf_shape(v: TermValue)
    ensures
        !Term::Leaf(v).spec_is_branch(),
        Term::Leaf(v).spec_len() == 0,
{
}

/// A term assembled from one or more children is a branch and counts
/// exactly those children.
pub proof fn lemma_branch_shape(t: Term)
    requires
        t is Branch,
        t->Branch_0@.len() >= 1,
    ensures
        t.spec_is_branch(),
        t.spec_len() == t->Branch_0@.len(),
{
}

/// Two leaf terms are equal exactly when they wrap equal values of the
/// same variant; leaves of different variants are never equal, even when
/// the underlying representations could coincide (an integer leaf never
/// equals the unit-sentinel leaf).
pub proof fn lemma_leaf_equality(v: TermValue, w: TermValue)
    ensures
        deep_eq(Term::Leaf(v), Term::Leaf(w)) == value_eq(v, w),
        !same_variant(v, w) ==> !deep_eq(Term::Leaf(v), Term::Leaf(w)),
{
}

/// A default-constructed term and a leaf explicitly wrapping the unit
/// sentinel are the very same term: they compare equal and render
/// identically.
pub proof fn lemma_default_is_wrapped_unit()
    ensures
        ({
            let d = Term::Leaf(TermValue::Unit(UnitValue::Ignore));
            let w = <Term as TermAccess<UnitValue>>::wrap(UnitValue::Ignore);
            &&& d == w
            &&& deep_eq(d, w)
            &&& spec_render(d) == spec_render(w)
        }),
{
}

} // verus!
