//! What the rewriting makes of each kind of expression and statement.
use vstd::prelude::*;
use crate::expand;
use crate::syntax::{Arm, Block, Expr, FieldValue, List, LocalInit, Stmt, Tokens};

verus! {

/// Whatever the operand of a `?` is, the rewriting puts in its place a block of three statements: one that binds `res`
/// to the rewritten operand, one that leaves raw mode if `res` is an error and raw mode is on, and `res`.
pub proof fn every_operand_is_bound_checked_and_given_on(attrs: Tokens, operand: Expr)
    ensures
        ({
            let none = Tokens::Fresh("");
            let path = |name: &'static str| Expr::Path(Tokens::Fresh(name));
            let method = |receiver: Expr, name: &'static str|
                Expr::MethodCall {
                    attrs: none,
                    receiver: Box::new(receiver),
                    method: Tokens::Fresh(name),
                    args: List::Nil,
                };
            let call = |func: Expr, args: List<Expr>| Expr::Call { attrs: none, func: Box::new(func), args };
            let list = |head: Stmt, tail: List<Stmt>| List::Cons(Box::new(head), Box::new(tail));
            let bind = Stmt::Local {
                attrs: none,
                pat: Tokens::Fresh("res"),
                init: Some(LocalInit { expr: Box::new(expand::expanded(operand)), diverge: None }),
            };
            let failed_in_raw_mode = Expr::Binary {
                attrs: none,
                left: Box::new(method(path("res"), "is_err")),
                op: Tokens::Fresh("&&"),
                right: Box::new(
                    method(call(path("::crossterm::terminal::is_raw_mode_enabled"), List::Nil), "unwrap"),
                ),
            };
            let disabling = call(
                path("::tokio::task::spawn_blocking"),
                List::Cons(Box::new(path("::crossterm::terminal::disable_raw_mode")), Box::new(List::Nil)),
            );
            let leave = Stmt::Expr {
                expr: Box::new(
                    method(method(Expr::Await { attrs: none, base: Box::new(disabling) }, "unwrap"), "unwrap"),
                ),
                semi: true,
            };
            let check = Stmt::Expr {
                expr: Box::new(
                    Expr::If {
                        attrs: none,
                        cond: Box::new(failed_in_raw_mode),
                        then_branch: Block { stmts: list(leave, List::Nil) },
                        else_branch: None,
                    },
                ),
                semi: false,
            };
            let give_on = Stmt::Expr { expr: Box::new(path("res")), semi: false };
            expand::expanded(Expr::Try { attrs, expr: Box::new(operand) }) == (Expr::Try {
                attrs,
                expr: Box::new(
                    Expr::Block {
                        attrs: none,
                        label: none,
                        block: Block { stmts: list(bind, list(check, list(give_on, List::Nil))) },
                    },
                ),
            })
        }),
{
}

/// An expression made of two others is rewritten in both.
pub proof fn both_parts_are_rewritten(attrs: Tokens, first: Expr, op: Tokens, second: Expr)
    ensures
        expand::expanded(Expr::Assign { attrs, left: Box::new(first), right: Box::new(second) }) == (
            Expr::Assign {
                attrs,
                left: Box::new(expand::expanded(first)),
                right: Box::new(expand::expanded(second)),
            }
        ),
        expand::expanded(Expr::Binary { attrs, left: Box::new(first), op, right: Box::new(second) }) == (
            Expr::Binary {
                attrs,
                left: Box::new(expand::expanded(first)),
                op,
                right: Box::new(expand::expanded(second)),
            }
        ),
        expand::expanded(Expr::Index { attrs, expr: Box::new(first), index: Box::new(second) }) == (
            Expr::Index {
                attrs,
                expr: Box::new(expand::expanded(first)),
                index: Box::new(expand::expanded(second)),
            }
        ),
        expand::expanded(Expr::Repeat { attrs, expr: Box::new(first), len: Box::new(second) }) == (
            Expr::Repeat { attrs, expr: Box::new(expand::expanded(first)), len: Box::new(expand::expanded(second)) }
        ),
{
}

/// An expression made of another is rewritten inside.
pub proof fn the_inner_expression_is_rewritten(attrs: Tokens, inner: Expr, tokens: Tokens)
    ensures
        expand::expanded(Expr::Await { attrs, base: Box::new(inner) }) == (
            Expr::Await { attrs, base: Box::new(expand::expanded(inner)) }
        ),
        expand::expanded(Expr::Cast { attrs, expr: Box::new(inner), ty: tokens }) == (
            Expr::Cast { attrs, expr: Box::new(expand::expanded(inner)), ty: tokens }
        ),
        expand::expanded(Expr::Field { attrs, base: Box::new(inner), member: tokens }) == (
            Expr::Field { attrs, base: Box::new(expand::expanded(inner)), member: tokens }
        ),
        expand::expanded(Expr::Group { attrs, expr: Box::new(inner) }) == (
            Expr::Group { attrs, expr: Box::new(expand::expanded(inner)) }
        ),
        expand::expanded(Expr::Let { attrs, pat: tokens, expr: Box::new(inner) }) == (
            Expr::Let { attrs, pat: tokens, expr: Box::new(expand::expanded(inner)) }
        ),
        expand::expanded(Expr::Paren { attrs, expr: Box::new(inner) }) == (
            Expr::Paren { attrs, expr: Box::new(expand::expanded(inner)) }
        ),
        expand::expanded(Expr::RawAddr { attrs, mutability: tokens, expr: Box::new(inner) }) == (
            Expr::RawAddr { attrs, mutability: tokens, expr: Box::new(expand::expanded(inner)) }
        ),
        expand::expanded(Expr::Reference { attrs, mutability: tokens, expr: Box::new(inner) }) == (
            Expr::Reference { attrs, mutability: tokens, expr: Box::new(expand::expanded(inner)) }
        ),
        expand::expanded(Expr::Unary { attrs, op: tokens, expr: Box::new(inner) }) == (
            Expr::Unary { attrs, op: tokens, expr: Box::new(expand::expanded(inner)) }
        ),
{
}

/// An expression made of others that may be left out is rewritten in those that are there.
pub proof fn what_may_be_left_out_is_rewritten(
    attrs: Tokens,
    value: Option<Box<Expr>>,
    tokens: Tokens,
    end: Option<Box<Expr>>,
    inner: Expr,
)
    ensures
        expand::expanded(Expr::Break { attrs, label: tokens, value }) == (
            Expr::Break { attrs, label: tokens, value: expand::expanded_option(value) }
        ),
        expand::expanded(Expr::Return { attrs, value }) == (
            Expr::Return { attrs, value: expand::expanded_option(value) }
        ),
        expand::expanded(Expr::Yield { attrs, value }) == (
            Expr::Yield { attrs, value: expand::expanded_option(value) }
        ),
        expand::expanded(Expr::Range { attrs, start: value, limits: tokens, end }) == (
            Expr::Range {
                attrs,
                start: expand::expanded_option(value),
                limits: tokens,
                end: expand::expanded_option(end),
            }
        ),
        expand::expanded_option(Some(Box::new(inner))) == (Some(Box::new(expand::expanded(inner)))),
        expand::expanded_option(None) == (None::<Box<Expr>>),
{
}

/// An expression made of a list of others is rewritten in all of them.
pub proof fn every_element_is_rewritten(attrs: Tokens, first: Expr, exprs: List<Expr>, tokens: Tokens)
    ensures
        expand::expanded(Expr::Array { attrs, elems: exprs }) == (
            Expr::Array { attrs, elems: expand::expanded_list(exprs) }
        ),
        expand::expanded(Expr::Tuple { attrs, elems: exprs }) == (
            Expr::Tuple { attrs, elems: expand::expanded_list(exprs) }
        ),
        expand::expanded(Expr::Call { attrs, func: Box::new(first), args: exprs }) == (
            Expr::Call { attrs, func: Box::new(expand::expanded(first)), args: expand::expanded_list(exprs) }
        ),
        expand::expanded(
            Expr::MethodCall { attrs, receiver: Box::new(first), method: tokens, args: exprs },
        ) == (
            Expr::MethodCall {
                attrs,
                receiver: Box::new(expand::expanded(first)),
                method: tokens,
                args: expand::expanded_list(exprs),
            }
        ),
        expand::expanded_list(List::Cons(Box::new(first), Box::new(exprs))) == (
            List::Cons(Box::new(expand::expanded(first)), Box::new(expand::expanded_list(exprs)))
        ),
        expand::expanded_list(List::Nil) == (List::<Expr>::Nil),
{
}

/// An expression with blocks is rewritten in its blocks and in what decides on them.
pub proof fn blocks_are_rewritten(
    attrs: Tokens,
    label: Tokens,
    pat: Tokens,
    head: Expr,
    block: Block,
    other: Option<Box<Expr>>,
)
    ensures
        expand::expanded(Expr::Block { attrs, label, block }) == (
            Expr::Block { attrs, label, block: expand::expanded_block(block) }
        ),
        expand::expanded(Expr::Const { attrs, block }) == (
            Expr::Const { attrs, block: expand::expanded_block(block) }
        ),
        expand::expanded(Expr::Unsafe { attrs, block }) == (
            Expr::Unsafe { attrs, block: expand::expanded_block(block) }
        ),
        expand::expanded(Expr::Loop { attrs, label, body: block }) == (
            Expr::Loop { attrs, label, body: expand::expanded_block(block) }
        ),
        expand::expanded(Expr::While { attrs, label, cond: Box::new(head), body: block }) == (
            Expr::While {
                attrs,
                label,
                cond: Box::new(expand::expanded(head)),
                body: expand::expanded_block(block),
            }
        ),
        expand::expanded(Expr::ForLoop { attrs, label, pat, expr: Box::new(head), body: block }) == (
            Expr::ForLoop {
                attrs,
                label,
                pat,
                expr: Box::new(expand::expanded(head)),
                body: expand::expanded_block(block),
            }
        ),
        expand::expanded(
            Expr::If { attrs, cond: Box::new(head), then_branch: block, else_branch: other },
        ) == (
            Expr::If {
                attrs,
                cond: Box::new(expand::expanded(head)),
                then_branch: expand::expanded_block(block),
                else_branch: expand::expanded_option(other),
            }
        ),
{
}

/// A `match` is rewritten in what it looks at, and in the guards and bodies of all its arms.
pub proof fn every_arm_is_rewritten(
    attrs: Tokens,
    expr: Expr,
    arms: List<Arm>,
    pat: Tokens,
    guard: Option<Box<Expr>>,
    body: Expr,
)
    ensures
        expand::expanded(Expr::Match { attrs, expr: Box::new(expr), arms }) == (
            Expr::Match { attrs, expr: Box::new(expand::expanded(expr)), arms: expand::expanded_arms(arms) }
        ),
        expand::expanded_arms(
            List::Cons(Box::new(Arm { attrs, pat, guard, body: Box::new(body) }), Box::new(arms)),
        ) == (
            List::Cons(
                Box::new(
                    Arm {
                        attrs,
                        pat,
                        guard: expand::expanded_option(guard),
                        body: Box::new(expand::expanded(body)),
                    },
                ),
                Box::new(expand::expanded_arms(arms)),
            )
        ),
        expand::expanded_arms(List::Nil) == (List::<Arm>::Nil),
{
}

/// A struct expression is rewritten in the values of all its fields, and in the expression for the rest.
pub proof fn every_field_is_rewritten(
    attrs: Tokens,
    path: Tokens,
    fields: List<FieldValue>,
    dots: bool,
    rest: Option<Box<Expr>>,
    head: Tokens,
    value: Expr,
)
    ensures
        expand::expanded(Expr::Struct { attrs, path, fields, dots, rest }) == (
            Expr::Struct {
                attrs,
                path,
                fields: expand::expanded_fields(fields),
                dots,
                rest: expand::expanded_option(rest),
            }
        ),
        expand::expanded_fields(
            List::Cons(Box::new(FieldValue { head, expr: Box::new(value) }), Box::new(fields)),
        ) == (
            List::Cons(
                Box::new(FieldValue { head, expr: Box::new(expand::expanded(value)) }),
                Box::new(expand::expanded_fields(fields)),
            )
        ),
        expand::expanded_fields(List::Nil) == (List::<FieldValue>::Nil),
{
}

/// A block is rewritten in all its statements: in the value that a `let` binds and in what it does otherwise, and in
/// expressions. Declarations and macro calls stay.
pub proof fn every_statement_is_rewritten(
    stmt: Stmt,
    stmts: List<Stmt>,
    attrs: Tokens,
    pat: Tokens,
    expr: Expr,
    diverge: Option<Box<Expr>>,
    semi: bool,
    tokens: Tokens,
)
    ensures
        expand::expanded_block(Block { stmts }) == (Block { stmts: expand::expanded_stmts(stmts) }),
        expand::expanded_stmts(List::Cons(Box::new(stmt), Box::new(stmts))) == (
            List::Cons(Box::new(expand::expanded_stmt(stmt)), Box::new(expand::expanded_stmts(stmts)))
        ),
        expand::expanded_stmts(List::Nil) == (List::<Stmt>::Nil),
        expand::expanded_stmt(
            Stmt::Local { attrs, pat, init: Some(LocalInit { expr: Box::new(expr), diverge }) },
        ) == (
            Stmt::Local {
                attrs,
                pat,
                init: Some(
                    LocalInit { expr: Box::new(expand::expanded(expr)), diverge: expand::expanded_option(diverge) },
                ),
            }
        ),
        expand::expanded_stmt(Stmt::Local { attrs, pat, init: None }) == (Stmt::Local { attrs, pat, init: None }),
        expand::expanded_stmt(Stmt::Expr { expr: Box::new(expr), semi }) == (
            Stmt::Expr { expr: Box::new(expand::expanded(expr)), semi }
        ),
        expand::expanded_stmt(Stmt::Item(tokens)) == (Stmt::Item(tokens)),
        expand::expanded_stmt(Stmt::Macro(tokens)) == (Stmt::Macro(tokens)),
{
}

/// What holds no expressions stays, and so do the scopes that a `?` does not leave for the function.
pub proof fn the_rest_stays(attrs: Tokens, tokens: Tokens, block: Block, result: Expr)
    ensures
        expand::expanded(Expr::Continue(tokens)) == (Expr::Continue(tokens)),
        expand::expanded(Expr::Infer(tokens)) == (Expr::Infer(tokens)),
        expand::expanded(Expr::Lit(tokens)) == (Expr::Lit(tokens)),
        expand::expanded(Expr::Macro(tokens)) == (Expr::Macro(tokens)),
        expand::expanded(Expr::Path(tokens)) == (Expr::Path(tokens)),
        expand::expanded(Expr::Verbatim(tokens)) == (Expr::Verbatim(tokens)),
        expand::expanded(Expr::Async { attrs, capture: tokens, block }) == (
            Expr::Async { attrs, capture: tokens, block }
        ),
        expand::expanded(Expr::Closure { head: tokens, result: Box::new(result) }) == (
            Expr::Closure { head: tokens, result: Box::new(result) }
        ),
        expand::expanded(Expr::TryBlock { attrs, block }) == (Expr::TryBlock { attrs, block }),
{
}

} // verus!
