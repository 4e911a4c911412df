//! Diagnostic rendering of terms.
//!
//! A leaf shows its wrapped value, a branch shows its child sequence in
//! parentheses. The output is for diagnostics only; it is not a stable
//! serialization format and must not be relied on for round-tripping (a
//! rendered string, for one, carries its contents unescaped between the
//! quotes).

use vstd::prelude::*;

use crate::term::Term;
use crate::value::TermValue;
use vstd::string::StringExecFns;

verus! {

/// The decimal digit `d` as a one-character string.
pub open spec fn spec_digit(d: nat) -> Seq<char> {
    if d == 0 {
        "0"@
    } else if d == 1 {
        "1"@
    } else if d == 2 {
        "2"@
    } else if d == 3 {
        "3"@
    } else if d == 4 {
        "4"@
    } else if d == 5 {
        "5"@
    } else if d == 6 {
        "6"@
    } else if d == 7 {
        "7"@
    } else if d == 8 {
        "8"@
    } else {
        "9"@
    }
}

/// The usual decimal numeral of `n`: most significant digit first, no
/// leading zeros (a single zero for 0).
pub open spec fn spec_decimal(n: nat) -> Seq<char>
    decreases n,
{
    if n < 10 {
        spec_digit(n)
    } else {
        spec_decimal(n / 10) + spec_digit(n % 10)
    }
}

/// The decimal numeral of `i`, with a leading minus sign when negative.
pub open spec fn spec_signed_decimal(i: int) -> Seq<char> {
    if i < 0 {
        "-"@ + spec_decimal((-i) as nat)
    } else {
        spec_decimal(i as nat)
    }
}

/// How one wrapped value renders.
pub open spec fn spec_render_value(v: TermValue) -> Seq<char> {
    match v {
        TermValue::Bool(b) => if b {
            "true"@
        } else {
            "false"@
        },
        TermValue::Int(i) => spec_signed_decimal(i as int),
        TermValue::PrimitiveFn(f) => "fn#"@ + spec_decimal(f.id as nat),
        TermValue::Str(s) => "\""@ + s@ + "\""@,
        TermValue::Sym(s) => "sym#"@ + spec_decimal(s.id as nat),
        TermValue::Unit(_) => "#ignore"@,
    }
}

/// How the first `n` children of a branch render: each child's rendering,
/// separated by single spaces.
pub open spec fn spec_render_children(cs: Vec<Term>, n: int) -> Seq<char>
    decreases cs, 1int, n,
{
    if n <= 0 || n > cs.len() {
        Seq::empty()
    } else if n == 1 {
        spec_render(cs[0])
    } else {
        spec_render_children(cs, n - 1) + " "@ + spec_render(cs[n - 1])
    }
}

/// How a term renders: a leaf as its value, a branch as its children in
/// parentheses.
pub open spec fn spec_render(t: Term) -> Seq<char>
    decreases t, 0int, 0int,
{
    match t {
        Term::Leaf(v) => spec_render_value(v),
        Term::Branch(cs) => "("@ + spec_render_children(cs, cs.len() as int) + ")"@,
    }
}

/// The decimal digit `d < 10` as a string slice.
fn digit(d: u64) -> (s: &'static str)
    requires
        d < 10,
    ensures
        s@ == spec_digit(d as nat),
{
    match d {
        0 => "0",
        1 => "1",
        2 => "2",
        3 => "3",
        4 => "4",
        5 => "5",
        6 => "6",
        7 => "7",
        8 => "8",
        _ => "9",
    }
}

/// The decimal numeral of `n`.
fn decimal(n: u64) -> (s: String)
    ensures
        s@ == spec_decimal(n as nat),
    decreases n,
{
    if n < 10 {
        digit(n).to_owned()
    } else {
        let mut s = decimal(n / 10);
        s.append(digit(n % 10));
        s
    }
}

/// The decimal numeral of `i`, with its sign.
fn signed_decimal(i: i64) -> (s: String)
    ensures
        s@ == spec_signed_decimal(i as int),
{
    if i >= 0 {
        decimal(i as u64)
    } else {
        // The magnitude, computed without negating `i` itself: `-i` would
        // overflow on the smallest value.
        let magnitude: u64 = ((-(i + 1)) as u64) + 1;
        assert(magnitude as int == -(i as int));
        let mut s = "-".to_owned();
        s.append(decimal(magnitude).as_str());
        s
    }
}

/// The rendering of one wrapped value.
fn render_value(v: &TermValue) -> (s: String)
    ensures
        s@ == spec_render_value(*v),
{
    match v {
        TermValue::Bool(b) => if *b {
            "true".to_owned()
        } else {
            "false".to_owned()
        },
        TermValue::Int(i) => signed_decimal(*i),
        TermValue::PrimitiveFn(f) => {
            let mut s = "fn#".to_owned();
            s.append(decimal(f.id).as_str());
            s
        },
        TermValue::Str(text) => {
            let mut s = "\"".to_owned();
            s.append(text.as_str());
            s.append("\"");
            s
        },
        TermValue::Sym(sym) => {
            let mut s = "sym#".to_owned();
            s.append(decimal(sym.id).as_str());
            s
        },
        TermValue::Unit(_) => "#ignore".to_owned(),
    }
}

impl Term {
    /// The diagnostic rendering: the wrapped value for a leaf, the child
    /// sequence in parentheses for a branch.
    pub fn render(&self) -> (s: String)
        ensures
            s@ == spec_render(*self),
        decreases *self,
    {
        match self {
            Term::Leaf(v) => render_value(v),
            Term::Branch(cs) => {
                let mut s = "(".to_owned();
                let mut i: usize = 0;
                while i < cs.len()
                    invariant
                        i <= cs@.len(),
                        *self == Term::Branch(*cs),
                        s@ == "("@ + spec_render_children(*cs, i as int),
                    decreases cs@.len() - i,
                {
                    proof {
                        assert(decreases_to!(*self => self->Branch_0));
                        assert(decreases_to!(self->Branch_0 => self->Branch_0@));
                        assert(decreases_to!(self->Branch_0@ => self->Branch_0@[i as int]));
                        assert(decreases_to!(*self => cs@[i as int]));
                    }
                    if i > 0 {
                        s.append(" ");
                    }
                    let child = cs[i].render();
                    s.append(child.as_str());
                    i += 1;
                }
                s.append(")");
                s
            },
        }
    }
}

} // verus!
