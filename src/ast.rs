//! The expression shapes the lint inspects, as the host analysis hands them over.
use vstd::prelude::*;

verus! {

/// Whether a reference or a raw pointer allows mutation.
#[derive(Clone, Copy, Debug, PartialEq, Eq, Structural)]
pub enum Mutability {
    Not,
    Mut,
}

/// A source region, with the host's answer to "does this come from a macro expansion?".
#[derive(Clone, Copy, Debug, PartialEq, Eq, Structural)]
pub struct Span {
    pub lo: u32,
    pub hi: u32,
    pub from_expansion: bool,
}

impl Span {
    /// A span written directly by the user.
    pub fn new(lo: u32, hi: u32) -> (r: Span)
        ensures
            r == (Span { lo, hi, from_expansion: false }),
    {
        Span { lo, hi, from_expansion: false }
    }

    /// A span produced by expanding a macro.
    pub fn expanded(lo: u32, hi: u32) -> (r: Span)
        ensures
            r == (Span { lo, hi, from_expansion: true }),
    {
        Span { lo, hi, from_expansion: true }
    }

    /// Whether the span traces through a macro expansion.
    pub fn in_macro(&self) -> (r: bool)
        ensures
            r == self.from_expansion,
    {
        self.from_expansion
    }
}

/// The target type of a cast.
#[derive(Debug)]
pub enum Ty {
    /// `*const T` or `*mut T`.
    Ptr(Mutability, Box<Ty>),
    /// `&T` or `&mut T`.
    Ref(Mutability, Box<Ty>),
    /// A named type such as `i32` or `usize`.
    Path(String),
    /// `_`.
    Infer,
}

/// The syntactic kind of an expression node.
#[derive(Debug)]
pub enum ExprKind {
    /// `operand as ty`.
    Cast(Box<Expr>, Ty),
    /// `&place` or `&mut place`.
    AddrOf(Mutability, Box<Expr>),
    /// A variable or other path.
    Path(String),
    /// An integer literal.
    Lit(u128),
    /// Any other expression; the lint never looks inside it.
    Other,
}

/// An expression node: its kind, where it stands, and its source text.
#[derive(Debug)]
pub struct Expr {
    pub kind: ExprKind,
    pub span: Span,
    pub source: String,
}

} // verus!
