use core::cmp::Ordering;
use core::marker::PhantomData;
use vstd::prelude::*;

use crate::field::LurkField;
use crate::tag::{ContTag, ExprTag};

verus! {

/// The untyped part of a store pointer.
#[derive(Debug, Copy, Clone, PartialEq, Eq, Ord, Hash, Structural)]
pub enum RawPtr {
    /// The referent's digest is the field's zero: the empty forms only
    /// (empty string, empty symbol).
    Null,
    /// The referent is known by its digest alone; the payload indexes the
    /// table of such commitments. Its content is never available here.
    Opaque(usize),
    /// The referent is held at this slot of the store table that the
    /// accompanying category selects.
    Index(usize),
}

impl RawPtr {
    /// The payload of an `Opaque` pointer.
    pub open spec fn spec_opaque_idx(self) -> Option<usize> {
        match self {
            RawPtr::Opaque(i) => Some(i),
            _ => None,
        }
    }

    /// The payload of an `Index` pointer.
    pub open spec fn spec_idx(self) -> Option<usize> {
        match self {
            RawPtr::Index(i) => Some(i),
            _ => None,
        }
    }

    /// Position of the variant in declaration order.
    pub open spec fn rank(self) -> int {
        match self {
            RawPtr::Null => 0,
            RawPtr::Opaque(_) => 1,
            RawPtr::Index(_) => 2,
        }
    }

    /// The payload, with 0 for `Null`.
    pub open spec fn payload(self) -> int {
        match self {
            RawPtr::Null => 0,
            RawPtr::Opaque(i) => i as int,
            RawPtr::Index(i) => i as int,
        }
    }

    /// The order on raw pointers: by variant, then by payload.
    pub open spec fn spec_cmp(self, other: RawPtr) -> Ordering {
        if self.rank() < other.rank() {
            Ordering::Less
        } else if self.rank() > other.rank() {
            Ordering::Greater
        } else if self.payload() < other.payload() {
            Ordering::Less
        } else if self.payload() > other.payload() {
            Ordering::Greater
        } else {
            Ordering::Equal
        }
    }

    /// `self` comes no later than `other`.
    pub open spec fn spec_le(self, other: RawPtr) -> bool {
        self.spec_cmp(other) != Ordering::Greater
    }

    /// A slot pointer, the most common shape.
    pub fn new(p: usize) -> (r: Self)
        ensures
            r == RawPtr::Index(p),
    {
        RawPtr::Index(p)
    }

    /// The pointer is known by commitment only.
    pub fn is_opaque(&self) -> (r: bool)
        ensures
            r == self is Opaque,
    {
        matches!(self, RawPtr::Opaque(_))
    }

    /// The pointer is the null sentinel.
    pub fn is_null(&self) -> (r: bool)
        ensures
            r == self is Null,
    {
        matches!(self, RawPtr::Null)
    }

    /// The commitment index of an opaque pointer; `None` for any other shape.
    pub fn opaque_idx(&self) -> (r: Option<usize>)
        ensures
            r == self.spec_opaque_idx(),
    {
        match self {
            RawPtr::Opaque(x) => Some(*x),
            _ => None,
        }
    }

    /// The slot index of a resolved pointer; `None` for any other shape.
    pub fn idx(&self) -> (r: Option<usize>)
        ensures
            r == self.spec_idx(),
    {
        match self {
            RawPtr::Index(x) => Some(*x),
            _ => None,
        }
    }
}

impl PartialOrd for RawPtr {
    fn partial_cmp(&self, other: &RawPtr) -> (r: Option<Ordering>) {
        let (ra, pa): (u8, usize) = match self {
            RawPtr::Null => (0, 0),
            RawPtr::Opaque(i) => (1, *i),
            RawPtr::Index(i) => (2, *i),
        };
        let (rb, pb): (u8, usize) = match other {
            RawPtr::Null => (0, 0),
            RawPtr::Opaque(i) => (1, *i),
            RawPtr::Index(i) => (2, *i),
        };
        if ra < rb {
            Some(Ordering::Less)
        } else if ra > rb {
            Some(Ordering::Greater)
        } else if pa < pb {
            Some(Ordering::Less)
        } else if pa > pb {
            Some(Ordering::Greater)
        } else {
            Some(Ordering::Equal)
        }
    }
}

impl vstd::std_specs::cmp::PartialOrdSpecImpl for RawPtr {
    open spec fn obeys_partial_cmp_spec() -> bool {
        true
    }

    open spec fn partial_cmp_spec(&self, other: &RawPtr) -> Option<Ordering> {
        Some(self.spec_cmp(*other))
    }
}

} // verus!

verus! {

/// A store pointer to an expression: a category and a raw pointer, pinned to
/// the field `F`.
#[derive(Debug, Copy, Eq, Hash)]
pub struct Ptr<F: LurkField> {
    /// The expression category.
    pub tag: ExprTag,
    /// Where the referent is: null, opaque or a slot.
    pub raw: RawPtr,
    /// Pins the pointer to one field; holds no value.
    pub _f: PhantomData<F>,
}

impl<F: LurkField> Ptr<F> {
    /// What hashing feeds to the hasher, in order: the category, then the
    /// raw pointer (the marker adds nothing).
    pub open spec fn hash_fields(self) -> (ExprTag, RawPtr) {
        (self.tag, self.raw)
    }

    pub open spec fn spec_is_nil(self) -> bool {
        self.tag == ExprTag::Nil
    }

    pub open spec fn spec_is_cons(self) -> bool {
        self.tag == ExprTag::Cons
    }

    pub open spec fn spec_is_atom(self) -> bool {
        !self.spec_is_cons()
    }

    pub open spec fn spec_is_list(self) -> bool {
        self.spec_is_nil() || self.spec_is_cons()
    }

    pub open spec fn spec_index(tag: ExprTag, idx: usize) -> Self {
        Ptr { tag, raw: RawPtr::Index(idx), _f: PhantomData }
    }

    pub open spec fn spec_opaque(tag: ExprTag, idx: usize) -> Self {
        Ptr { tag, raw: RawPtr::Opaque(idx), _f: PhantomData }
    }

    pub open spec fn spec_null(tag: ExprTag) -> Self {
        Ptr { tag, raw: RawPtr::Null, _f: PhantomData }
    }

    pub open spec fn spec_cast(self, tag: ExprTag) -> Self {
        Ptr { tag, raw: self.raw, _f: self._f }
    }

    /// The pointer of character `c`: its code point as a slot index, under
    /// the character category.
    pub open spec fn spec_from_char(c: char) -> Self {
        Ptr { tag: ExprTag::Char, raw: RawPtr::Index(c as u32 as usize), _f: PhantomData }
    }

    /// The category is the empty list.
    pub fn is_nil(&self) -> (r: bool)
        ensures
            r == self.spec_is_nil(),
    {
        matches!(self.tag, ExprTag::Nil)
    }

    /// The category is the cons cell.
    pub fn is_cons(&self) -> (r: bool)
        ensures
            r == self.spec_is_cons(),
    {
        matches!(self.tag, ExprTag::Cons)
    }

    /// Anything but a cons cell.
    pub fn is_atom(&self) -> (r: bool)
        ensures
            r == self.spec_is_atom(),
    {
        !self.is_cons()
    }

    /// The empty list or a cons cell.
    pub fn is_list(&self) -> (r: bool)
        ensures
            r == self.spec_is_list(),
    {
        matches!(self.tag, ExprTag::Nil | ExprTag::Cons)
    }

    /// The raw pointer is opaque.
    pub fn is_opaque(&self) -> (r: bool)
        ensures
            r == self.raw is Opaque,
    {
        self.raw.is_opaque()
    }

    /// The pointer itself if it is a cons cell, else `None`.
    pub fn as_cons(self) -> (r: Option<Self>)
        ensures
            r == (if self.spec_is_cons() { Some(self) } else { None::<Self> }),
    {
        if self.is_cons() {
            Some(self)
        } else {
            None
        }
    }

    /// The pointer itself if it is a list, else `None`.
    pub fn as_list(self) -> (r: Option<Self>)
        ensures
            r == (if self.spec_is_list() { Some(self) } else { None::<Self> }),
    {
        if self.is_list() {
            Some(self)
        } else {
            None
        }
    }

    /// A pointer to slot `idx` of the table for `tag`; `idx` is not checked.
    pub fn index(tag: ExprTag, idx: usize) -> (r: Self)
        ensures
            r == Self::spec_index(tag, idx),
    {
        Ptr { tag, raw: RawPtr::Index(idx), _f: PhantomData }
    }

    /// A pointer known only by commitment `idx`.
    pub fn opaque(tag: ExprTag, idx: usize) -> (r: Self)
        ensures
            r == Self::spec_opaque(tag, idx),
    {
        Ptr { tag, raw: RawPtr::Opaque(idx), _f: PhantomData }
    }

    /// The null pointer of `tag`; only meaningful for the categories whose
    /// empty form has digest zero, which the store is trusted to respect.
    pub fn null(tag: ExprTag) -> (r: Self)
        ensures
            r == Self::spec_null(tag),
    {
        Ptr { tag, raw: RawPtr::Null, _f: PhantomData }
    }

    /// The same raw pointer under another category. Nothing checks that the
    /// referent is valid under `tag`.
    pub fn cast(self, tag: ExprTag) -> (r: Self)
        ensures
            r == self.spec_cast(tag),
    {
        Ptr { tag, raw: self.raw, _f: self._f }
    }
}

impl<F: LurkField> Clone for Ptr<F> {
    fn clone(&self) -> (r: Self)
        ensures
            r == *self,
    {
        *self
    }
}

impl<F: LurkField> PartialEq for Ptr<F> {
    fn eq(&self, other: &Self) -> (r: bool) {
        self.tag == other.tag && self.raw == other.raw
    }
}

impl<F: LurkField> vstd::std_specs::cmp::PartialEqSpecImpl for Ptr<F> {
    open spec fn obeys_eq_spec() -> bool {
        true
    }

    open spec fn eq_spec(&self, other: &Self) -> bool {
        self.tag == other.tag && self.raw == other.raw
    }
}

/// A character is held in the pointer itself: its code point is the slot
/// index, under the character category.
impl<F: LurkField> From<char> for Ptr<F> {
    fn from(c: char) -> (r: Self) {
        Ptr { tag: ExprTag::Char, raw: RawPtr::Index(c as u32 as usize), _f: PhantomData }
    }
}

impl<F: LurkField> vstd::std_specs::convert::FromSpecImpl<char> for Ptr<F> {
    open spec fn obeys_from_spec() -> bool {
        true
    }

    open spec fn from_spec(c: char) -> Self {
        Self::spec_from_char(c)
    }
}

} // verus!

verus! {

/// A store pointer to a continuation: a continuation category and a raw
/// pointer, pinned to the field `F`.
#[derive(Debug, Copy, Eq, Hash)]
pub struct ContPtr<F: LurkField> {
    /// The continuation category.
    pub tag: ContTag,
    /// Where the referent is: null, opaque or a slot.
    pub raw: RawPtr,
    /// Pins the pointer to one field; holds no value.
    pub _f: PhantomData<F>,
}

impl<F: LurkField> ContPtr<F> {
    /// What hashing feeds to the hasher, in order: the category, then the
    /// raw pointer (the marker adds nothing).
    pub open spec fn hash_fields(self) -> (ContTag, RawPtr) {
        (self.tag, self.raw)
    }

    pub open spec fn spec_new(tag: ContTag, raw: RawPtr) -> Self {
        ContPtr { tag, raw, _f: PhantomData }
    }

    /// A pointer from a category and a raw pointer, taken as they are.
    pub fn new(tag: ContTag, raw: RawPtr) -> (r: Self)
        ensures
            r == Self::spec_new(tag, raw),
    {
        ContPtr { tag, raw, _f: PhantomData }
    }

    /// The category is the error continuation.
    pub fn is_error(&self) -> (r: bool)
        ensures
            r == (self.tag == ContTag::Error),
    {
        matches!(self.tag, ContTag::Error)
    }

    /// A pointer to slot `idx` of the table for `tag`; `idx` is not checked.
    pub fn index(tag: ContTag, idx: usize) -> (r: Self)
        ensures
            r == Self::spec_new(tag, RawPtr::Index(idx)),
    {
        ContPtr { tag, raw: RawPtr::Index(idx), _f: PhantomData }
    }

    /// A continuation pointer built from commitment `idx`.
    ///
    /// Unlike `Ptr::opaque`, the raw pointer is `Index(idx)`, not
    /// `Opaque(idx)`. The two constructors are independent of each other;
    /// whether this one ought to build an opaque pointer is an open question.
    pub fn opaque(tag: ContTag, idx: usize) -> (r: Self)
        ensures
            r == Self::spec_new(tag, RawPtr::Index(idx)),
    {
        ContPtr { tag, raw: RawPtr::Index(idx), _f: PhantomData }
    }

    /// The null pointer of `tag`.
    pub fn null(tag: ContTag) -> (r: Self)
        ensures
            r == Self::spec_new(tag, RawPtr::Null),
    {
        ContPtr { tag, raw: RawPtr::Null, _f: PhantomData }
    }
}

impl<F: LurkField> Clone for ContPtr<F> {
    fn clone(&self) -> (r: Self)
        ensures
            r == *self,
    {
        *self
    }
}

impl<F: LurkField> PartialEq for ContPtr<F> {
    fn eq(&self, other: &Self) -> (r: bool) {
        self.tag == other.tag && self.raw == other.raw
    }
}

impl<F: LurkField> vstd::std_specs::cmp::PartialEqSpecImpl for ContPtr<F> {
    open spec fn obeys_eq_spec() -> bool {
        true
    }

    open spec fn eq_spec(&self, other: &Self) -> bool {
        self.tag == other.tag && self.raw == other.raw
    }
}

/// Classification of a value by its expression category. Every answer is
/// the category's own; implementors only say which category they carry.
pub trait TypePredicates {
    /// The category whose classification answers the queries.
    spec fn category(&self) -> ExprTag;

    fn is_fun(&self) -> (r: bool)
        ensures
            r == self.category().spec_is_fun(),
    ;

    fn is_self_evaluating(&self) -> (r: bool)
        ensures
            r == self.category().spec_is_self_evaluating(),
    ;

    fn is_potentially(&self, tag: ExprTag) -> (r: bool)
        ensures
            r == self.category().spec_is_potentially(tag),
    ;
}

impl TypePredicates for ExprTag {
    open spec fn category(&self) -> ExprTag {
        *self
    }

    fn is_fun(&self) -> (r: bool) {
        matches!(self, ExprTag::Fun)
    }

    fn is_self_evaluating(&self) -> (r: bool) {
        match self {
            ExprTag::Nil | ExprTag::Fun | ExprTag::Num | ExprTag::Str | ExprTag::Char
            | ExprTag::Comm | ExprTag::U64 | ExprTag::Key => true,
            ExprTag::Cons | ExprTag::Sym | ExprTag::Thunk => false,
        }
    }

    fn is_potentially(&self, tag: ExprTag) -> (r: bool) {
        matches!(self, ExprTag::Thunk) || *self == tag
    }
}

impl<F: LurkField> TypePredicates for Ptr<F> {
    open spec fn category(&self) -> ExprTag {
        self.tag
    }

    fn is_fun(&self) -> (r: bool) {
        self.tag.is_fun()
    }

    fn is_self_evaluating(&self) -> (r: bool) {
        self.tag.is_self_evaluating()
    }

    fn is_potentially(&self, tag: ExprTag) -> (r: bool) {
        self.tag.is_potentially(tag)
    }
}

} // verus!
