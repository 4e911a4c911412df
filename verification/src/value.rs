//! The closed set of atomic value variants a leaf term may hold.

use vstd::prelude::*;

verus! {

/// Handle for an interned identifier, supplied by the evaluator's
/// symbol-interning collaborator. Two symbols are the same identifier
/// exactly when their interning indices coincide.
#[derive(Debug, Clone, Copy, PartialEq, Eq, Structural)]
pub struct Symbol {
    pub id: u64,
}

/// Handle for a native/primitive callable, registered with and invoked by
/// the evaluator's combiner/dispatch collaborator. Two handles name the
/// same callable exactly when their registry indices coincide.
#[derive(Debug, Clone, Copy, PartialEq, Eq, Structural)]
pub struct NativeFn {
    pub id: u64,
}

/// The unit sentinel: the single "no value / ignore" placeholder.
#[derive(Debug, Clone, Copy, PartialEq, Eq, Structural)]
pub enum UnitValue {
    Ignore,
}

/// One atomic payload of a leaf term. The set of variants is closed by
/// design: extending it means extending every accessor instantiation too.
#[derive(Debug)]
pub enum TermValue {
    Bool(bool),
    Int(i64),
    PrimitiveFn(NativeFn),
    Str(String),
    Sym(Symbol),
    Unit(UnitValue),
}

/// Whether two values are of the same variant, whatever they hold.
pub open spec fn same_variant(v: TermValue, w: TermValue) -> bool {
    match (v, w) {
        (TermValue::Bool(_), TermValue::Bool(_)) => true,
        (TermValue::Int(_), TermValue::Int(_)) => true,
        (TermValue::PrimitiveFn(_), TermValue::PrimitiveFn(_)) => true,
        (TermValue::Str(_), TermValue::Str(_)) => true,
        (TermValue::Sym(_), TermValue::Sym(_)) => true,
        (TermValue::Unit(_), TermValue::Unit(_)) => true,
        _ => false,
    }
}

/// Value equality: same variant and equal payloads (strings by contents).
/// Values of different variants are never equal, even when the underlying
/// representations could coincide (integer 0 is not the unit sentinel).
pub open spec fn value_eq(v: TermValue, w: TermValue) -> bool {
    match (v, w) {
        (TermValue::Bool(a), TermValue::Bool(b)) => a == b,
        (TermValue::Int(a), TermValue::Int(b)) => a == b,
        (TermValue::PrimitiveFn(a), TermValue::PrimitiveFn(b)) => a == b,
        (TermValue::Str(a), TermValue::Str(b)) => a@ == b@,
        (TermValue::Sym(a), TermValue::Sym(b)) => a == b,
        (TermValue::Unit(a), TermValue::Unit(b)) => a == b,
        _ => false,
    }
}

impl PartialEq for TermValue {
    fn eq(&self, other: &TermValue) -> (r: bool) {
        match (self, other) {
            (TermValue::Bool(a), TermValue::Bool(b)) => *a == *b,
            (TermValue::Int(a), TermValue::Int(b)) => *a == *b,
            (TermValue::PrimitiveFn(a), TermValue::PrimitiveFn(b)) => *a == *b,
            (TermValue::Str(a), TermValue::Str(b)) => *a == *b,
            (TermValue::Sym(a), TermValue::Sym(b)) => *a == *b,
            (TermValue::Unit(a), TermValue::Unit(b)) => *a == *b,
            _ => false,
        }
    }
}

impl vstd::std_specs::cmp::PartialEqSpecImpl for TermValue {
    open spec fn obeys_eq_spec() -> bool {
        true
    }

    open spec fn eq_spec(&self, other: &TermValue) -> bool {
        value_eq(*self, *other)
    }
}

impl Eq for TermValue {}

impl Clone for TermValue {
    /// A cloned value equals the original: same variant, equal payload.
    fn clone(&self) -> (v: TermValue)
        ensures
            value_eq(v, *self),
    {
        match self {
            TermValue::Bool(b) => TermValue::Bool(*b),
            TermValue::Int(i) => TermValue::Int(*i),
            TermValue::PrimitiveFn(f) => TermValue::PrimitiveFn(*f),
            TermValue::Str(s) => TermValue::Str(s.clone()),
            TermValue::Sym(s) => TermValue::Sym(*s),
            TermValue::Unit(u) => TermValue::Unit(*u),
        }
    }
}

} // verus!
