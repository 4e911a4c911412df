use term_core::{
    Access, AccessMut, Error, ErrorKind, NativeFn, Symbol, Term, TryAccess, TryAccessMut,
    UnitValue,
};

fn mismatch() -> Error {
    Error::new(ErrorKind::TypeMismatch)
}

#[test]
fn trusted_round_trip_every_variant() {
    let t = Term::from(true);
    let b: &bool = t.access();
    assert_eq!(*b, true);

    let t = Term::from(-7i64);
    let i: &i64 = t.access();
    assert_eq!(*i, -7);

    let t = Term::from(NativeFn { id: 11 });
    let f: &NativeFn = t.access();
    assert_eq!(*f, NativeFn { id: 11 });

    let t = Term::from(String::from("abc"));
    let s: &String = t.access();
    assert_eq!(s, "abc");

    let t = Term::from(Symbol { id: 23 });
    let y: &Symbol = t.access();
    assert_eq!(*y, Symbol { id: 23 });

    let t = Term::from(UnitValue::Ignore);
    let u: &UnitValue = t.access();
    assert_eq!(*u, UnitValue::Ignore);
}

#[test]
fn fallible_success_every_variant() {
    let t = Term::from(false);
    let b: Result<&bool, Error> = t.try_access();
    assert_eq!(b.unwrap(), &false);

    let t = Term::from(64i64);
    let i: Result<&i64, Error> = t.try_access();
    assert_eq!(i.unwrap(), &64);

    let t = Term::from(NativeFn { id: 2 });
    let f: Result<&NativeFn, Error> = t.try_access();
    assert_eq!(f.unwrap(), &NativeFn { id: 2 });

    let t = Term::from(String::from("ok"));
    let s: Result<&String, Error> = t.try_access();
    assert_eq!(s.unwrap(), "ok");

    let t = Term::from(Symbol { id: 8 });
    let y: Result<&Symbol, Error> = t.try_access();
    assert_eq!(y.unwrap(), &Symbol { id: 8 });

    let t = Term::from(UnitValue::Ignore);
    let u: Result<&UnitValue, Error> = t.try_access();
    assert_eq!(u.unwrap(), &UnitValue::Ignore);
}

#[test]
fn fallible_mismatch_bool_leaf() {
    let t = Term::from(true);
    let r: Result<&i64, Error> = t.try_access();
    assert_eq!(r.unwrap_err(), mismatch());
    let r: Result<&NativeFn, Error> = t.try_access();
    assert_eq!(r.unwrap_err(), mismatch());
    let r: Result<&String, Error> = t.try_access();
    assert_eq!(r.unwrap_err(), mismatch());
    let r: Result<&Symbol, Error> = t.try_access();
    assert_eq!(r.unwrap_err(), mismatch());
    let r: Result<&UnitValue, Error> = t.try_access();
    assert_eq!(r.unwrap_err(), mismatch());
}

#[test]
fn fallible_mismatch_int_leaf() {
    let t = Term::from(5i64);
    let r: Result<&bool, Error> = t.try_access();
    assert_eq!(r.unwrap_err(), mismatch());
    let r: Result<&NativeFn, Error> = t.try_access();
    assert_eq!(r.unwrap_err(), mismatch());
    let r: Result<&String, Error> = t.try_access();
    assert_eq!(r.unwrap_err(), mismatch());
    let r: Result<&Symbol, Error> = t.try_access();
    assert_eq!(r.unwrap_err(), mismatch());
    let r: Result<&UnitValue, Error> = t.try_access();
    assert_eq!(r.unwrap_err(), mismatch());
}

#[test]
fn fallible_mismatch_native_fn_leaf() {
    let t = Term::from(NativeFn { id: 1 });
    let r: Result<&bool, Error> = t.try_access();
    assert_eq!(r.unwrap_err(), mismatch());
    let r: Result<&i64, Error> = t.try_access();
    assert_eq!(r.unwrap_err(), mismatch());
    let r: Result<&String, Error> = t.try_access();
    assert_eq!(r.unwrap_err(), mismatch());
    let r: Result<&Symbol, Error> = t.try_access();
    assert_eq!(r.unwrap_err(), mismatch());
    let r: Result<&UnitValue, Error> = t.try_access();
    assert_eq!(r.unwrap_err(), mismatch());
}

#[test]
fn fallible_mismatch_str_leaf() {
    let t = Term::from(String::from("s"));
    let r: Result<&bool, Error> = t.try_access();
    assert_eq!(r.unwrap_err(), mismatch());
    let r: Result<&i64, Error> = t.try_access();
    assert_eq!(r.unwrap_err(), mismatch());
    let r: Result<&NativeFn, Error> = t.try_access();
    assert_eq!(r.unwrap_err(), mismatch());
    let r: Result<&Symbol, Error> = t.try_access();
    assert_eq!(r.unwrap_err(), mismatch());
    let r: Result<&UnitValue, Error> = t.try_access();
    assert_eq!(r.unwrap_err(), mismatch());
}

#[test]
fn fallible_mismatch_sym_leaf() {
    let t = Term::from(Symbol { id: 6 });
    let r: Result<&bool, Error> = t.try_access();
    assert_eq!(r.unwrap_err(), mismatch());
    let r: Result<&i64, Error> = t.try_access();
    assert_eq!(r.unwrap_err(), mismatch());
    let r: Result<&NativeFn, Error> = t.try_access();
    assert_eq!(r.unwrap_err(), mismatch());
    let r: Result<&String, Error> = t.try_access();
    assert_eq!(r.unwrap_err(), mismatch());
    let r: Result<&UnitValue, Error> = t.try_access();
    assert_eq!(r.unwrap_err(), mismatch());
}

#[test]
fn fallible_mismatch_unit_leaf() {
    let t = Term::from(UnitValue::Ignore);
    let r: Result<&bool, Error> = t.try_access();
    assert_eq!(r.unwrap_err(), mismatch());
    let r: Result<&i64, Error> = t.try_access();
    assert_eq!(r.unwrap_err(), mismatch());
    let r: Result<&NativeFn, Error> = t.try_access();
    assert_eq!(r.unwrap_err(), mismatch());
    let r: Result<&String, Error> = t.try_access();
    assert_eq!(r.unwrap_err(), mismatch());
    let r: Result<&Symbol, Error> = t.try_access();
    assert_eq!(r.unwrap_err(), mismatch());
}

#[test]
fn fallible_mismatch_on_branch() {
    // A branch holds no value at all: every fallible access reports the
    // typed mismatch error.
    let mut t = Term::Branch(vec![Term::from(1i64)]);
    let r: Result<&i64, Error> = t.try_access();
    assert_eq!(r.unwrap_err(), mismatch());
    let r: Result<&mut i64, Error> = t.try_access_mut();
    assert_eq!(r.unwrap_err(), mismatch());
    // And the failed mutable access leaves the branch unchanged.
    assert_eq!(t, Term::Branch(vec![Term::from(1i64)]));
}

#[test]
fn trusted_mutable_access_updates_in_place() {
    let mut t = Term::from(1i64);
    {
        let i: &mut i64 = t.access_mut();
        assert_eq!(*i, 1);
        *i = 2;
    }
    assert_eq!(t, Term::from(2i64));

    let mut t = Term::from(String::from("a"));
    {
        let s: &mut String = t.access_mut();
        s.push('b');
    }
    assert_eq!(t, Term::from(String::from("ab")));
}

#[test]
fn fallible_mutable_access_updates_on_match() {
    let mut t = Term::from(false);
    {
        let r: Result<&mut bool, Error> = t.try_access_mut();
        *r.unwrap() = true;
    }
    assert_eq!(t, Term::from(true));
}

#[test]
fn fallible_mutable_access_rejects_mismatch() {
    let mut t = Term::from(false);
    {
        let r: Result<&mut i64, Error> = t.try_access_mut();
        assert_eq!(r.unwrap_err(), mismatch());
    }
    assert_eq!(t, Term::from(false));
}

#[test]
fn scenario_wrapped_integer() {
    // Wrap integer 42: not a branch; trusted integer access returns 42;
    // fallible string access reports the mismatch.
    let t = Term::from(42i64);
    assert!(!t.is_branch());
    let i: &i64 = t.access();
    assert_eq!(*i, 42);
    let s: Result<&String, Error> = t.try_access();
    assert_eq!(s.unwrap_err(), mismatch());
}

#[test]
fn scenario_three_leaf_branch() {
    // Assemble a branch from three leaves: three children, and a branch.
    let t = Term::Branch(vec![Term::from(1i64), Term::from(2i64), Term::from(true)]);
    assert_eq!(t.len(), 3);
    assert!(t.is_branch());
}
