//! Laws that relate the pointer operations to one another.
use core::cmp::Ordering;
use vstd::prelude::*;
use vstd::relations::{sorted_by, total_ordering};
use vstd::seq_lib::lemma_sorted_unique;
use vstd::std_specs::cmp::PartialEqSpec;

use crate::field::LurkField;
use crate::ptr::{ContPtr, Ptr, RawPtr};
use crate::tag::{ContTag, ExprTag};

verus! {

/// A slot pointer of any expression category reads back its slot index, has
/// no commitment index, and is not opaque.
pub proof fn lemma_index_is_resolved<F: LurkField>(tag: ExprTag, idx: usize)
    ensures
        Ptr::<F>::spec_index(tag, idx).raw.spec_idx() == Some(idx),
        Ptr::<F>::spec_index(tag, idx).raw.spec_opaque_idx() == None::<usize>,
        !(Ptr::<F>::spec_index(tag, idx).raw is Opaque),
{
}

/// The same for a slot pointer of any continuation category.
pub proof fn lemma_cont_index_is_resolved<F: LurkField>(tag: ContTag, idx: usize)
    ensures
        ContPtr::<F>::spec_new(tag, RawPtr::Index(idx)).raw.spec_idx() == Some(idx),
        ContPtr::<F>::spec_new(tag, RawPtr::Index(idx)).raw.spec_opaque_idx() == None::<usize>,
        !(ContPtr::<F>::spec_new(tag, RawPtr::Index(idx)).raw is Opaque),
{
}

/// An opaque expression pointer of any category reads back its commitment
/// index, has no slot index, and is opaque.
pub proof fn lemma_opaque_is_unresolved<F: LurkField>(tag: ExprTag, idx: usize)
    ensures
        Ptr::<F>::spec_opaque(tag, idx).raw.spec_opaque_idx() == Some(idx),
        Ptr::<F>::spec_opaque(tag, idx).raw.spec_idx() == None::<usize>,
        Ptr::<F>::spec_opaque(tag, idx).raw is Opaque,
{
}

/// A null expression pointer of any category is null, with neither a slot
/// nor a commitment index.
pub proof fn lemma_null_has_no_index<F: LurkField>(tag: ExprTag)
    ensures
        Ptr::<F>::spec_null(tag).raw is Null,
        Ptr::<F>::spec_null(tag).raw.spec_idx() == None::<usize>,
        Ptr::<F>::spec_null(tag).raw.spec_opaque_idx() == None::<usize>,
{
}

/// The same for a null continuation pointer.
pub proof fn lemma_cont_null_has_no_index<F: LurkField>(tag: ContTag)
    ensures
        ContPtr::<F>::spec_new(tag, RawPtr::Null).raw is Null,
        ContPtr::<F>::spec_new(tag, RawPtr::Null).raw.spec_idx() == None::<usize>,
        ContPtr::<F>::spec_new(tag, RawPtr::Null).raw.spec_opaque_idx() == None::<usize>,
{
}

/// Equal expression pointers feed the same values to the hasher, so they
/// hash alike; and pointers that feed the same values are equal.
pub proof fn lemma_eq_hashes_alike<F: LurkField>(p: Ptr<F>, q: Ptr<F>)
    ensures
        p.eq_spec(&q) <==> (p.hash_fields() == q.hash_fields()),
{
}

/// Equal continuation pointers feed the same values to the hasher, and
/// conversely.
pub proof fn lemma_cont_eq_hashes_alike<F: LurkField>(p: ContPtr<F>, q: ContPtr<F>)
    ensures
        p.eq_spec(&q) <==> (p.hash_fields() == q.hash_fields()),
{
}

/// Relabelling keeps the raw pointer exactly.
pub proof fn lemma_cast_keeps_raw<F: LurkField>(p: Ptr<F>, tag: ExprTag)
    ensures
        p.spec_cast(tag).raw == p.raw,
        p.spec_cast(tag).tag == tag,
{
}

/// A pointer is a list exactly when its category is nil or cons, and an
/// atom exactly when it is not a cons cell.
pub proof fn lemma_list_and_atom<F: LurkField>(p: Ptr<F>)
    ensures
        p.spec_is_list() <==> (p.tag == ExprTag::Nil || p.tag == ExprTag::Cons),
        p.spec_is_atom() <==> !p.spec_is_cons(),
{
}

/// A character's pointer has the character category and reads back the
/// character's code point as its slot index.
pub proof fn lemma_char_round_trip<F: LurkField>(c: char)
    ensures
        Ptr::<F>::spec_from_char(c).tag == ExprTag::Char,
        Ptr::<F>::spec_from_char(c).raw.spec_idx() is Some,
        Ptr::<F>::spec_from_char(c).raw.spec_idx().unwrap() as int == c as int,
{
}

/// The order on raw pointers as a relation.
pub open spec fn raw_le() -> spec_fn(RawPtr, RawPtr) -> bool {
    |a: RawPtr, b: RawPtr| a.spec_le(b)
}

/// The order on raw pointers is total: reflexive, antisymmetric, transitive
/// and connected; it answers `Equal` on equal values only, and comparing
/// the other way round gives the reverse answer.
pub proof fn lemma_raw_order_total(a: RawPtr, b: RawPtr)
    ensures
        total_ordering(raw_le()),
        a.spec_cmp(b) == Ordering::Equal <==> a == b,
        a.spec_cmp(b) == Ordering::Less <==> b.spec_cmp(a) == Ordering::Greater,
{
}

/// Sorting raw pointers is deterministic: any two sorted arrangements of
/// the same multiset of pointers are the same sequence.
pub proof fn lemma_raw_sort_deterministic(s1: Seq<RawPtr>, s2: Seq<RawPtr>)
    requires
        sorted_by(s1, raw_le()),
        sorted_by(s2, raw_le()),
        s1.to_multiset() == s2.to_multiset(),
    ensures
        s1 == s2,
{
    lemma_raw_order_total(RawPtr::Null, RawPtr::Null);
    lemma_sorted_unique(s1, s2, raw_le());
}

} // verus!
