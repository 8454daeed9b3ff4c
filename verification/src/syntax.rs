//! The part of a function's syntax tree that the guard rewriting reads.
//!
//! Every kind of expression has its own variant. Whatever the rewriting only carries along (attributes, patterns,
//! types, operators and so on) is held as [`Tokens`].
use vstd::prelude::*;

verus! {

/// Source tokens that are carried along without being looked into.
#[derive(Debug, Clone, Copy, PartialEq, Eq)]
pub enum Tokens {
    /// A piece of the annotated function, by the number its reader gave it.
    Source(usize),
    /// Tokens that did not come from the annotated function.
    Fresh(&'static str),
}

/// A finite list.
#[derive(Debug, PartialEq, Eq)]
pub enum List<T> {
    Nil,
    Cons(Box<T>, Box<List<T>>),
}

/// An expression.
#[derive(Debug, PartialEq, Eq)]
pub enum Expr {
    Array { attrs: Tokens, elems: List<Expr> },
    Assign { attrs: Tokens, left: Box<Expr>, right: Box<Expr> },
    Async { attrs: Tokens, capture: Tokens, block: Block },
    Await { attrs: Tokens, base: Box<Expr> },
    Binary { attrs: Tokens, left: Box<Expr>, op: Tokens, right: Box<Expr> },
    Block { attrs: Tokens, label: Tokens, block: Block },
    Break { attrs: Tokens, label: Tokens, value: Option<Box<Expr>> },
    Call { attrs: Tokens, func: Box<Expr>, args: List<Expr> },
    Cast { attrs: Tokens, expr: Box<Expr>, ty: Tokens },
    /// `head` is everything before the result.
    Closure { head: Tokens, result: Box<Expr> },
    Const { attrs: Tokens, block: Block },
    Continue(Tokens),
    Field { attrs: Tokens, base: Box<Expr>, member: Tokens },
    ForLoop { attrs: Tokens, label: Tokens, pat: Tokens, expr: Box<Expr>, body: Block },
    /// An expression between invisible delimiters.
    Group { attrs: Tokens, expr: Box<Expr> },
    If { attrs: Tokens, cond: Box<Expr>, then_branch: Block, else_branch: Option<Box<Expr>> },
    Index { attrs: Tokens, expr: Box<Expr>, index: Box<Expr> },
    Infer(Tokens),
    Let { attrs: Tokens, pat: Tokens, expr: Box<Expr> },
    Lit(Tokens),
    Loop { attrs: Tokens, label: Tokens, body: Block },
    Macro(Tokens),
    Match { attrs: Tokens, expr: Box<Expr>, arms: List<Arm> },
    /// `method` is the name with its generic arguments.
    MethodCall { attrs: Tokens, receiver: Box<Expr>, method: Tokens, args: List<Expr> },
    Paren { attrs: Tokens, expr: Box<Expr> },
    Path(Tokens),
    Range { attrs: Tokens, start: Option<Box<Expr>>, limits: Tokens, end: Option<Box<Expr>> },
    RawAddr { attrs: Tokens, mutability: Tokens, expr: Box<Expr> },
    Reference { attrs: Tokens, mutability: Tokens, expr: Box<Expr> },
    Repeat { attrs: Tokens, expr: Box<Expr>, len: Box<Expr> },
    Return { attrs: Tokens, value: Option<Box<Expr>> },
    Struct { attrs: Tokens, path: Tokens, fields: List<FieldValue>, dots: bool, rest: Option<Box<Expr>> },
    /// An expression annotated with `?`.
    Try { attrs: Tokens, expr: Box<Expr> },
    TryBlock { attrs: Tokens, block: Block },
    Tuple { attrs: Tokens, elems: List<Expr> },
    Unary { attrs: Tokens, op: Tokens, expr: Box<Expr> },
    Unsafe { attrs: Tokens, block: Block },
    Verbatim(Tokens),
    While { attrs: Tokens, label: Tokens, cond: Box<Expr>, body: Block },
    Yield { attrs: Tokens, value: Option<Box<Expr>> },
}

/// A field of a struct expression; `head` is everything before the value.
#[derive(Debug, PartialEq, Eq)]
pub struct FieldValue {
    pub head: Tokens,
    pub expr: Box<Expr>,
}

/// An arm of a `match`.
#[derive(Debug, PartialEq, Eq)]
pub struct Arm {
    pub attrs: Tokens,
    pub pat: Tokens,
    pub guard: Option<Box<Expr>>,
    pub body: Box<Expr>,
}

/// A block of statements.
#[derive(Debug, PartialEq, Eq)]
pub struct Block {
    pub stmts: List<Stmt>,
}

/// What a `let` binds its pattern to: a value and, for `let ... else`, the diverging expression.
#[derive(Debug, PartialEq, Eq)]
pub struct LocalInit {
    pub expr: Box<Expr>,
    pub diverge: Option<Box<Expr>>,
}

/// A statement.
#[derive(Debug, PartialEq, Eq)]
pub enum Stmt {
    Local { attrs: Tokens, pat: Tokens, init: Option<LocalInit> },
    Item(Tokens),
    /// An expression, with a semicolon after it if `semi` holds.
    Expr { expr: Box<Expr>, semi: bool },
    Macro(Tokens),
}

/// The return type of a function.
#[derive(Debug, PartialEq, Eq)]
pub enum ReturnType {
    /// No return type is written.
    Default,
    /// A path, by the identifiers of its segments.
    Path(Vec<String>),
    /// Any other type.
    Other,
}

/// A function; `head` is everything before the body.
#[derive(Debug, PartialEq, Eq)]
pub struct ItemFn {
    pub head: Tokens,
    pub output: ReturnType,
    pub block: Block,
}

} // verus!
