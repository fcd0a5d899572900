//! Typed addresses into a content-addressed, hash-consed store of
//! expressions and continuations.
//!
//! A [`RawPtr`] says how a referent can be reached: by a slot index, by a
//! commitment index only (opaque), or not at all (the null sentinel). A
//! [`Ptr`] pairs a raw pointer with an expression category, a [`ContPtr`]
//! with a continuation category. Both are plain values, pinned at compile
//! time to one field through a zero-sized marker.

mod field;
pub mod lemmas;
mod ptr;
mod tag;

pub use field::LurkField;
pub use ptr::{ContPtr, Ptr, RawPtr, TypePredicates};
pub use tag::{ContTag, ExprTag};
