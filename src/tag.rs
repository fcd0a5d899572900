use vstd::prelude::*;

verus! {

/// The category of an expression.
#[derive(Debug, Copy, Clone, PartialEq, Eq, Hash, Structural)]
pub enum ExprTag {
    Nil,
    Cons,
    Sym,
    Fun,
    Num,
    Thunk,
    Str,
    Char,
    Comm,
    U64,
    Key,
}

/// The category of a continuation.
#[derive(Debug, Copy, Clone, PartialEq, Eq, Hash, Structural)]
pub enum ContTag {
    Outermost,
    Call0,
    Call,
    Call2,
    Tail,
    Error,
    Lookup,
    Unop,
    Binop,
    Binop2,
    If,
    Let,
    LetRec,
    Dummy,
    Terminal,
    Emit,
}

impl ExprTag {
    /// Values of this category are functions.
    pub open spec fn spec_is_fun(self) -> bool {
        self == ExprTag::Fun
    }

    /// Values of this category evaluate to themselves.
    pub open spec fn spec_is_self_evaluating(self) -> bool {
        match self {
            ExprTag::Nil | ExprTag::Fun | ExprTag::Num | ExprTag::Str | ExprTag::Char
            | ExprTag::Comm | ExprTag::U64 | ExprTag::Key => true,
            ExprTag::Cons | ExprTag::Sym | ExprTag::Thunk => false,
        }
    }

    /// A value of this category may turn out to be of category `tag`: a
    /// thunk may stand for anything, every other category only for itself.
    pub open spec fn spec_is_potentially(self, tag: ExprTag) -> bool {
        self == ExprTag::Thunk || self == tag
    }
}

} // verus!
