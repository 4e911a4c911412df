//! Uniform term/value representation for a symbolic-expression evaluator.
//!
//! A [`Term`] is the single recursive structure every part of the evaluator
//! works with: a leaf wrapping one atomic value, or a branch holding an
//! ordered sequence of child terms. A closed set of value variants
//! ([`TermValue`]) covers the atomic payloads, and two parallel accessor
//! families project a payload back out: the trusted accessors assume the
//! caller already knows the variant, while the fallible accessors are total
//! and report a typed mismatch error instead.

pub mod access;
pub mod error;
pub mod laws;
pub mod render;
pub mod term;
pub mod value;

pub use access::{Access, AccessMut, TermAccess, TryAccess, TryAccessMut};
pub use error::{Error, ErrorKind};
pub use term::Term;
pub use value::{NativeFn, Symbol, TermValue, UnitValue};
