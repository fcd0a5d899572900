use std::collections::hash_map::DefaultHasher;
use std::hash::{Hash, Hasher};

use lurk_ptr::{ContPtr, ContTag, ExprTag, LurkField, Ptr, RawPtr, TypePredicates};

#[derive(Debug, Clone, Copy, PartialEq, Eq, Hash)]
struct Fr;

impl LurkField for Fr {}

fn hash_of<T: Hash>(v: &T) -> u64 {
    let mut h = DefaultHasher::new();
    v.hash(&mut h);
    h.finish()
}

#[test]
fn raw_new_is_index() {
    let r = RawPtr::new(42);
    assert_eq!(r, RawPtr::Index(42));
    assert_eq!(r.idx(), Some(42));
    assert_eq!(r.opaque_idx(), None);
    assert!(!r.is_opaque());
    assert!(!r.is_null());
}

#[test]
fn raw_shapes() {
    assert!(RawPtr::Null.is_null());
    assert!(!RawPtr::Null.is_opaque());
    assert_eq!(RawPtr::Null.idx(), None);
    assert_eq!(RawPtr::Null.opaque_idx(), None);
    assert!(RawPtr::Opaque(9).is_opaque());
    assert!(!RawPtr::Opaque(9).is_null());
    assert_eq!(RawPtr::Opaque(9).opaque_idx(), Some(9));
    assert_eq!(RawPtr::Opaque(9).idx(), None);
}

#[test]
fn index_is_resolved_for_every_tag() {
    for tag in [ExprTag::Nil, ExprTag::Cons, ExprTag::Sym, ExprTag::Char, ExprTag::Num] {
        for i in [0usize, 1, 17, usize::MAX] {
            let p = Ptr::<Fr>::index(tag, i);
            assert_eq!(p.tag, tag);
            assert_eq!(p.raw.idx(), Some(i));
            assert_eq!(p.raw.opaque_idx(), None);
            assert!(!p.is_opaque());
        }
    }
}

#[test]
fn opaque_is_unresolved_for_every_tag() {
    for tag in [ExprTag::Nil, ExprTag::Cons, ExprTag::Fun, ExprTag::Str] {
        for i in [0usize, 3, usize::MAX] {
            let p = Ptr::<Fr>::opaque(tag, i);
            assert_eq!(p.raw.opaque_idx(), Some(i));
            assert_eq!(p.raw.idx(), None);
            assert!(p.is_opaque());
        }
    }
}

#[test]
fn null_has_no_index() {
    for tag in [ExprTag::Nil, ExprTag::Str, ExprTag::Sym] {
        let p = Ptr::<Fr>::null(tag);
        assert!(p.raw.is_null());
        assert_eq!(p.raw.idx(), None);
        assert_eq!(p.raw.opaque_idx(), None);
    }
}

#[test]
fn equal_pointers_hash_alike() {
    let a = Ptr::<Fr>::index(ExprTag::Cons, 12);
    let b = Ptr::<Fr>::index(ExprTag::Num, 12).cast(ExprTag::Cons);
    assert_eq!(a, b);
    assert_eq!(hash_of(&a), hash_of(&b));
    let c = ContPtr::<Fr>::index(ContTag::Call, 4);
    let d = ContPtr::<Fr>::new(ContTag::Call, RawPtr::Index(4));
    assert_eq!(c, d);
    assert_eq!(hash_of(&c), hash_of(&d));
}

#[test]
fn pointers_differ_by_tag_or_raw() {
    assert_ne!(Ptr::<Fr>::index(ExprTag::Cons, 1), Ptr::<Fr>::index(ExprTag::Nil, 1));
    assert_ne!(Ptr::<Fr>::index(ExprTag::Cons, 1), Ptr::<Fr>::opaque(ExprTag::Cons, 1));
    assert_ne!(Ptr::<Fr>::index(ExprTag::Cons, 1), Ptr::<Fr>::index(ExprTag::Cons, 2));
    assert_ne!(ContPtr::<Fr>::null(ContTag::Error), ContPtr::<Fr>::null(ContTag::Outermost));
}

#[test]
fn cast_keeps_raw() {
    for raw in [RawPtr::Null, RawPtr::Opaque(8), RawPtr::Index(8)] {
        let p = Ptr::<Fr> { tag: ExprTag::Sym, raw, _f: std::marker::PhantomData };
        let q = p.cast(ExprTag::Str);
        assert_eq!(q.raw, raw);
        assert_eq!(q.tag, ExprTag::Str);
    }
}

#[test]
fn list_and_atom_follow_tag() {
    let tags = [
        ExprTag::Nil,
        ExprTag::Cons,
        ExprTag::Sym,
        ExprTag::Fun,
        ExprTag::Num,
        ExprTag::Thunk,
        ExprTag::Str,
        ExprTag::Char,
        ExprTag::Comm,
        ExprTag::U64,
        ExprTag::Key,
    ];
    for tag in tags {
        let p = Ptr::<Fr>::index(tag, 0);
        assert_eq!(p.is_list(), tag == ExprTag::Nil || tag == ExprTag::Cons);
        assert_eq!(p.is_atom(), !p.is_cons());
        assert_eq!(p.is_nil(), tag == ExprTag::Nil);
        assert_eq!(p.is_cons(), tag == ExprTag::Cons);
    }
}

#[test]
fn as_cons_and_as_list_filter() {
    let cons = Ptr::<Fr>::index(ExprTag::Cons, 2);
    let nil = Ptr::<Fr>::null(ExprTag::Nil);
    let num = Ptr::<Fr>::index(ExprTag::Num, 2);
    assert_eq!(cons.as_cons(), Some(cons));
    assert_eq!(cons.as_list(), Some(cons));
    assert_eq!(nil.as_cons(), None);
    assert_eq!(nil.as_list(), Some(nil));
    assert_eq!(num.as_cons(), None);
    assert_eq!(num.as_list(), None);
}

#[test]
fn char_round_trip() {
    for c in ['\0', 'a', 'Z', '\u{e9}', '\u{10FFFF}'] {
        let p = Ptr::<Fr>::from(c);
        assert_eq!(p.tag, ExprTag::Char);
        assert_eq!(p.raw.idx(), Some(c as u32 as usize));
    }
}

#[test]
fn raw_order_is_variant_then_payload() {
    assert!(RawPtr::Null < RawPtr::Opaque(0));
    assert!(RawPtr::Opaque(usize::MAX) < RawPtr::Index(0));
    assert!(RawPtr::Index(3) < RawPtr::Index(4));
    assert!(RawPtr::Opaque(5) > RawPtr::Opaque(2));
    assert_eq!(RawPtr::Index(7).partial_cmp(&RawPtr::Index(7)), Some(std::cmp::Ordering::Equal));
    let all = [RawPtr::Null, RawPtr::Opaque(0), RawPtr::Opaque(4), RawPtr::Index(0), RawPtr::Index(4)];
    for a in all {
        for b in all {
            assert_eq!(a.partial_cmp(&b), Some(a.cmp(&b)));
        }
    }
}

#[test]
fn raw_sort_is_deterministic() {
    let mut v1 = vec![
        RawPtr::Index(3),
        RawPtr::Null,
        RawPtr::Opaque(7),
        RawPtr::Index(1),
        RawPtr::Opaque(2),
        RawPtr::Null,
        RawPtr::Index(3),
    ];
    let mut v2 = v1.clone();
    v2.reverse();
    let mut v3 = v1.clone();
    v3.rotate_left(3);
    v1.sort();
    v2.sort_by(|a, b| a.partial_cmp(b).unwrap());
    v3.sort();
    let expected = vec![
        RawPtr::Null,
        RawPtr::Null,
        RawPtr::Opaque(2),
        RawPtr::Opaque(7),
        RawPtr::Index(1),
        RawPtr::Index(3),
        RawPtr::Index(3),
    ];
    assert_eq!(v1, expected);
    assert_eq!(v2, expected);
    assert_eq!(v3, expected);
}

#[test]
fn index_cons_scenario() {
    let p = Ptr::<Fr>::index(ExprTag::Cons, 5);
    assert!(p.is_cons());
    assert!(p.is_list());
    assert!(!p.is_atom());
    assert!(!p.is_opaque());
}

#[test]
fn opaque_cons_scenario() {
    let p = Ptr::<Fr>::opaque(ExprTag::Cons, 7);
    assert!(p.is_opaque());
    assert_eq!(p.raw.idx(), None);
    assert_eq!(p.raw.opaque_idx(), Some(7));
}

#[test]
fn null_nil_scenario() {
    let p = Ptr::<Fr>::null(ExprTag::Nil);
    assert!(p.is_nil());
    assert!(p.is_list());
    assert!(p.raw.is_null());
}

#[test]
fn char_a_scenario() {
    let p: Ptr<Fr> = 'a'.into();
    assert_eq!(p.tag, ExprTag::Char);
    assert_eq!(p.raw, RawPtr::Index(97));
}

#[test]
fn cast_scenario() {
    let p = Ptr::<Fr>::index(ExprTag::Cons, 3).cast(ExprTag::Num);
    assert_eq!(p.tag, ExprTag::Num);
    assert_eq!(p.raw, RawPtr::Index(3));
}

#[test]
fn cont_constructors() {
    let i = ContPtr::<Fr>::index(ContTag::Tail, 6);
    assert_eq!(i.tag, ContTag::Tail);
    assert_eq!(i.raw, RawPtr::Index(6));
    let o = ContPtr::<Fr>::opaque(ContTag::Tail, 6);
    assert_eq!(o.raw, RawPtr::Index(6));
    assert!(!o.raw.is_opaque());
    let n = ContPtr::<Fr>::null(ContTag::Outermost);
    assert!(n.raw.is_null());
    let e = ContPtr::<Fr>::new(ContTag::Error, RawPtr::Opaque(1));
    assert_eq!(e.raw, RawPtr::Opaque(1));
    assert!(e.is_error());
    assert!(!n.is_error());
}

#[test]
fn type_predicates_follow_tag() {
    let fun = Ptr::<Fr>::index(ExprTag::Fun, 0);
    let cons = Ptr::<Fr>::index(ExprTag::Cons, 0);
    let thunk = Ptr::<Fr>::index(ExprTag::Thunk, 0);
    assert!(fun.is_fun());
    assert!(!cons.is_fun());
    assert!(fun.is_self_evaluating());
    assert!(!cons.is_self_evaluating());
    assert!(!Ptr::<Fr>::index(ExprTag::Sym, 0).is_self_evaluating());
    assert!(Ptr::<Fr>::null(ExprTag::Nil).is_self_evaluating());
    assert!(thunk.is_potentially(ExprTag::Num));
    assert!(cons.is_potentially(ExprTag::Cons));
    assert!(!cons.is_potentially(ExprTag::Nil));
    assert!(ExprTag::Fun.is_fun());
    assert!(!ExprTag::Str.is_potentially(ExprTag::Sym));
}
