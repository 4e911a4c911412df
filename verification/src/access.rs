//! The accessor protocol: per-variant typed projection out of a term.
//!
//! Two parallel families, each in a read-only and a mutable form, are
//! instantiated once per value variant:
//!
//! - the trusted accessors ([`Access`], [`AccessMut`]) assume the caller has
//!   already established the term's variant through prior dispatch, and
//!   project the payload with no error path at all;
//! - the fallible accessors ([`TryAccess`], [`TryAccessMut`]) are total and
//!   report a typed mismatch error, for terms that are externally supplied
//!   or not yet validated.
//!
//! Collapsing the two families into one would either lose the zero-ceremony
//! trusted path or the safety boundary, so both are kept, over one shared
//! characterization: [`TermAccess`].

use vstd::prelude::*;

use crate::error::{Error, ErrorKind};
use crate::term::Term;
use crate::value::{NativeFn, Symbol, TermValue, UnitValue};

verus! {

/// The per-variant characterization both accessor families are specified
/// against: which terms hold the targeted variant, what payload such a term
/// carries, and which leaf term wraps a given payload.
pub trait TermAccess<T>: Sized {
    /// Whether the term is a leaf holding the targeted variant.
    spec fn holds(&self) -> bool;

    /// The held payload; meaningful only when `holds` is true.
    spec fn value(&self) -> T;

    /// The leaf term wrapping a payload: what the conversion constructor
    /// builds.
    spec fn wrap(v: T) -> Self;

    /// Round-trip: wrapping a payload as a leaf term yields a term that
    /// holds the targeted variant, with the payload unchanged.
    proof fn wrap_round_trip(v: T)
        ensures
            Self::wrap(v).holds(),
            Self::wrap(v).value() == v,
    ;
}

/// Trusted read-only projection. Misuse (asking for a variant the term does
/// not hold) is a caller-contract violation, not a recoverable condition,
/// so the caller must establish the variant beforehand.
pub trait Access<T>: TermAccess<T> {
    fn access(&self) -> (r: &T)
        requires
            self.holds(),
        ensures
            *r == self.value(),
    ;
}

/// Trusted mutable projection, under the same caller contract as
/// [`Access`]: the term stays a leaf of the same variant, holding whatever
/// the caller leaves behind the returned reference.
pub trait AccessMut<T>: TermAccess<T> {
    fn access_mut(&mut self) -> (r: &mut T)
        requires
            old(self).holds(),
        ensures
            *r == old(self).value(),
            *final(self) == Self::wrap(*final(r)),
    ;
}

/// Fallible read-only projection: total, with a typed mismatch error
/// exactly when the term does not hold the targeted variant.
pub trait TryAccess<T>: TermAccess<T> {
    fn try_access(&self) -> (r: Result<&T, Error>)
        ensures
            self.holds() <==> r is Ok,
            r is Ok ==> *r->Ok_0 == self.value(),
            r is Err ==> r->Err_0 == (Error { kind: ErrorKind::TypeMismatch }),
    ;
}

/// Fallible mutable projection: on a match the term behaves as under
/// [`AccessMut`]; on a mismatch it reports the typed error and is left
/// unchanged.
pub trait TryAccessMut<T>: TermAccess<T> {
    fn try_access_mut(&mut self) -> (r: Result<&mut T, Error>)
        ensures
            old(self).holds() <==> r is Ok,
            r is Ok ==> *r->Ok_0 == old(self).value() && *final(self) == Self::wrap(
                *final(r->Ok_0),
            ),
            r is Err ==> r->Err_0 == (Error { kind: ErrorKind::TypeMismatch }) && *final(self)
                == *old(self),
    ;
}

impl TermAccess<bool> for Term {
    open spec fn holds(&self) -> bool {
        *self matches Term::Leaf(TermValue::Bool(_))
    }

    open spec fn value(&self) -> bool {
        match *self {
            Term::Leaf(TermValue::Bool(b)) => b,
            _ => arbitrary(),
        }
    }

    open spec fn wrap(v: bool) -> Term {
        Term::Leaf(TermValue::Bool(v))
    }

    proof fn wrap_round_trip(v: bool) {
    }
}

impl Access<bool> for Term {
    fn access(&self) -> (r: &bool) {
        match self {
            Term::Leaf(TermValue::Bool(b)) => b,
            _ => unreached(),
        }
    }
}

impl AccessMut<bool> for Term {
    fn access_mut(&mut self) -> (r: &mut bool) {
        match self {
            Term::Leaf(TermValue::Bool(b)) => b,
            _ => unreached(),
        }
    }
}

impl TryAccess<bool> for Term {
    fn try_access(&self) -> (r: Result<&bool, Error>) {
        match self {
            Term::Leaf(TermValue::Bool(b)) => Ok(b),
            _ => Err(Error::new(ErrorKind::TypeMismatch)),
        }
    }
}

impl TryAccessMut<bool> for Term {
    fn try_access_mut(&mut self) -> (r: Result<&mut bool, Error>) {
        match self {
            Term::Leaf(TermValue::Bool(b)) => Ok(b),
            _ => Err(Error::new(ErrorKind::TypeMismatch)),
        }
    }
}

impl From<bool> for Term {
    /// The conversion constructor for the boolean variant: the only
    /// documented leaf-construction path.
    fn from(v: bool) -> (t: Term)
        ensures
            t == <Term as TermAccess<bool>>::wrap(v),
    {
        Term::Leaf(TermValue::Bool(v))
    }
}

impl vstd::std_specs::convert::FromSpecImpl<bool> for Term {
    open spec fn obeys_from_spec() -> bool {
        true
    }

    open spec fn from_spec(v: bool) -> Term {
        <Term as TermAccess<bool>>::wrap(v)
    }
}

impl TermAccess<i64> for Term {
    open spec fn holds(&self) -> bool {
        *self matches Term::Leaf(TermValue::Int(_))
    }

    open spec fn value(&self) -> i64 {
        match *self {
            Term::Leaf(TermValue::Int(v)) => v,
            _ => arbitrary(),
        }
    }

    open spec fn wrap(v: i64) -> Term {
        Term::Leaf(TermValue::Int(v))
    }

    proof fn wrap_round_trip(v: i64) {
    }
}

impl Access<i64> for Term {
    fn access(&self) -> (r: &i64) {
        match self {
            Term::Leaf(TermValue::Int(v)) => v,
            _ => unreached(),
        }
    }
}

impl AccessMut<i64> for Term {
    fn access_mut(&mut self) -> (r: &mut i64) {
        match self {
            Term::Leaf(TermValue::Int(v)) => v,
            _ => unreached(),
        }
    }
}

impl TryAccess<i64> for Term {
    fn try_access(&self) -> (r: Result<&i64, Error>) {
        match self {
            Term::Leaf(TermValue::Int(v)) => Ok(v),
            _ => Err(Error::new(ErrorKind::TypeMismatch)),
        }
    }
}

impl TryAccessMut<i64> for Term {
    fn try_access_mut(&mut self) -> (r: Result<&mut i64, Error>) {
        match self {
            Term::Leaf(TermValue::Int(v)) => Ok(v),
            _ => Err(Error::new(ErrorKind::TypeMismatch)),
        }
    }
}

impl From<i64> for Term {
    /// The conversion constructor for the integer variant.
    fn from(v: i64) -> (t: Term)
        ensures
            t == <Term as TermAccess<i64>>::wrap(v),
    {
        Term::Leaf(TermValue::Int(v))
    }
}

impl vstd::std_specs::convert::FromSpecImpl<i64> for Term {
    open spec fn obeys_from_spec() -> bool {
        true
    }

    open spec fn from_spec(v: i64) -> Term {
        <Term as TermAccess<i64>>::wrap(v)
    }
}

impl TermAccess<NativeFn> for Term {
    open spec fn holds(&self) -> bool {
        *self matches Term::Leaf(TermValue::PrimitiveFn(_))
    }

    open spec fn value(&self) -> NativeFn {
        match *self {
            Term::Leaf(TermValue::PrimitiveFn(f)) => f,
            _ => arbitrary(),
        }
    }

    open spec fn wrap(v: NativeFn) -> Term {
        Term::Leaf(TermValue::PrimitiveFn(v))
    }

    proof fn wrap_round_trip(v: NativeFn) {
    }
}

impl Access<NativeFn> for Term {
    fn access(&self) -> (r: &NativeFn) {
        match self {
            Term::Leaf(TermValue::PrimitiveFn(f)) => f,
            _ => unreached(),
        }
    }
}

impl AccessMut<NativeFn> for Term {
    fn access_mut(&mut self) -> (r: &mut NativeFn) {
        match self {
            Term::Leaf(TermValue::PrimitiveFn(f)) => f,
            _ => unreached(),
        }
    }
}

impl TryAccess<NativeFn> for Term {
    fn try_access(&self) -> (r: Result<&NativeFn, Error>) {
        match self {
            Term::Leaf(TermValue::PrimitiveFn(f)) => Ok(f),
            _ => Err(Error::new(ErrorKind::TypeMismatch)),
        }
    }
}

impl TryAccessMut<NativeFn> for Term {
    fn try_access_mut(&mut self) -> (r: Result<&mut NativeFn, Error>) {
        match self {
            Term::Leaf(TermValue::PrimitiveFn(f)) => Ok(f),
            _ => Err(Error::new(ErrorKind::TypeMismatch)),
        }
    }
}

impl From<NativeFn> for Term {
    /// The conversion constructor for the primitive-callable variant.
    fn from(v: NativeFn) -> (t: Term)
        ensures
            t == <Term as TermAccess<NativeFn>>::wrap(v),
    {
        Term::Leaf(TermValue::PrimitiveFn(v))
    }
}

impl vstd::std_specs::convert::FromSpecImpl<NativeFn> for Term {
    open spec fn obeys_from_spec() -> bool {
        true
    }

    open spec fn from_spec(v: NativeFn) -> Term {
        <Term as TermAccess<NativeFn>>::wrap(v)
    }
}

impl TermAccess<String> for Term {
    open spec fn holds(&self) -> bool {
        *self matches Term::Leaf(TermValue::Str(_))
    }

    open spec fn value(&self) -> String {
        match *self {
            Term::Leaf(TermValue::Str(s)) => s,
            _ => arbitrary(),
        }
    }

    open spec fn wrap(v: String) -> Term {
        Term::Leaf(TermValue::Str(v))
    }

    proof fn wrap_round_trip(v: String) {
    }
}

impl Access<String> for Term {
    fn access(&self) -> (r: &String) {
        match self {
            Term::Leaf(TermValue::Str(s)) => s,
            _ => unreached(),
        }
    }
}

impl AccessMut<String> for Term {
    fn access_mut(&mut self) -> (r: &mut String) {
        match self {
            Term::Leaf(TermValue::Str(s)) => s,
            _ => unreached(),
        }
    }
}

impl TryAccess<String> for Term {
    fn try_access(&self) -> (r: Result<&String, Error>) {
        match self {
            Term::Leaf(TermValue::Str(s)) => Ok(s),
            _ => Err(Error::new(ErrorKind::TypeMismatch)),
        }
    }
}

impl TryAccessMut<String> for Term {
    fn try_access_mut(&mut self) -> (r: Result<&mut String, Error>) {
        match self {
            Term::Leaf(TermValue::Str(s)) => Ok(s),
            _ => Err(Error::new(ErrorKind::TypeMismatch)),
        }
    }
}

impl From<String> for Term {
    /// The conversion constructor for the text-string variant.
    fn from(v: String) -> (t: Term)
        ensures
            t == <Term as TermAccess<String>>::wrap(v),
    {
        Term::Leaf(TermValue::Str(v))
    }
}

impl vstd::std_specs::convert::FromSpecImpl<String> for Term {
    open spec fn obeys_from_spec() -> bool {
        true
    }

    open spec fn from_spec(v: String) -> Term {
        <Term as TermAccess<String>>::wrap(v)
    }
}

impl TermAccess<Symbol> for Term {
    open spec fn holds(&self) -> bool {
        *self matches Term::Leaf(TermValue::Sym(_))
    }

    open spec fn value(&self) -> Symbol {
        match *self {
            Term::Leaf(TermValue::Sym(s)) => s,
            _ => arbitrary(),
        }
    }

    open spec fn wrap(v: Symbol) -> Term {
        Term::Leaf(TermValue::Sym(v))
    }

    proof fn wrap_round_trip(v: Symbol) {
    }
}

impl Access<Symbol> for Term {
    fn access(&self) -> (r: &Symbol) {
        match self {
            Term::Leaf(TermValue::Sym(s)) => s,
            _ => unreached(),
        }
    }
}

impl AccessMut<Symbol> for Term {
    fn access_mut(&mut self) -> (r: &mut Symbol) {
        match self {
            Term::Leaf(TermValue::Sym(s)) => s,
            _ => unreached(),
        }
    }
}

impl TryAccess<Symbol> for Term {
    fn try_access(&self) -> (r: Result<&Symbol, Error>) {
        match self {
            Term::Leaf(TermValue::Sym(s)) => Ok(s),
            _ => Err(Error::new(ErrorKind::TypeMismatch)),
        }
    }
}

impl TryAccessMut<Symbol> for Term {
    fn try_access_mut(&mut self) -> (r: Result<&mut Symbol, Error>) {
        match self {
            Term::Leaf(TermValue::Sym(s)) => Ok(s),
            _ => Err(Error::new(ErrorKind::TypeMismatch)),
        }
    }
}

impl From<Symbol> for Term {
    /// The conversion constructor for the interned-symbol variant.
    fn from(v: Symbol) -> (t: Term)
        ensures
            t == <Term as TermAccess<Symbol>>::wrap(v),
    {
        Term::Leaf(TermValue::Sym(v))
    }
}

impl vstd::std_specs::convert::FromSpecImpl<Symbol> for Term {
    open spec fn obeys_from_spec() -> bool {
        true
    }

    open spec fn from_spec(v: Symbol) -> Term {
        <Term as TermAccess<Symbol>>::wrap(v)
    }
}

impl TermAccess<UnitValue> for Term {
    open spec fn holds(&self) -> bool {
        *self matches Term::Leaf(TermValue::Unit(_))
    }

    open spec fn value(&self) -> UnitValue {
        match *self {
            Term::Leaf(TermValue::Unit(u)) => u,
            _ => arbitrary(),
        }
    }

    open spec fn wrap(v: UnitValue) -> Term {
        Term::Leaf(TermValue::Unit(v))
    }

    proof fn wrap_round_trip(v: UnitValue) {
    }
}

impl Access<UnitValue> for Term {
    fn access(&self) -> (r: &UnitValue) {
        match self {
            Term::Leaf(TermValue::Unit(u)) => u,
            _ => unreached(),
        }
    }
}

impl AccessMut<UnitValue> for Term {
    fn access_mut(&mut self) -> (r: &mut UnitValue) {
        match self {
            Term::Leaf(TermValue::Unit(u)) => u,
            _ => unreached(),
        }
    }
}

impl TryAccess<UnitValue> for Term {
    fn try_access(&self) -> (r: Result<&UnitValue, Error>) {
        match self {
            Term::Leaf(TermValue::Unit(u)) => Ok(u),
            _ => Err(Error::new(ErrorKind::TypeMismatch)),
        }
    }
}

impl TryAccessMut<UnitValue> for Term {
    fn try_access_mut(&mut self) -> (r: Result<&mut UnitValue, Error>) {
        match self {
            Term::Leaf(TermValue::Unit(u)) => Ok(u),
            _ => Err(Error::new(ErrorKind::TypeMismatch)),
        }
    }
}

impl From<UnitValue> for Term {
    /// The conversion constructor for the unit-sentinel variant. The result
    /// is the very same term a default construction produces.
    fn from(v: UnitValue) -> (t: Term)
        ensures
            t == <Term as TermAccess<UnitValue>>::wrap(v),
    {
        Term::Leaf(TermValue::Unit(v))
    }
}

impl vstd::std_specs::convert::FromSpecImpl<UnitValue> for Term {
    open spec fn obeys_from_spec() -> bool {
        true
    }

    open spec fn from_spec(v: UnitValue) -> Term {
        <Term as TermAccess<UnitValue>>::wrap(v)
    }
}

} // verus!
