//! Guards the fallible points of a function: every `?` through which a failure leaves it.
use vstd::prelude::*;
use crate::syntax::{Arm, Block, Expr, FieldValue, List, LocalInit, Stmt, Tokens};

verus! {

/// No tokens at all.
pub open spec fn no_tokens() -> Tokens {
    Tokens::Fresh("")
}

/// The guarded form of a fallible expression:
///
/// ```text
/// {
///     let res = <expr>;
///     if res.is_err() && ::crossterm::terminal::is_raw_mode_enabled().unwrap() {
///         ::tokio::task::spawn_blocking(::crossterm::terminal::disable_raw_mode)
///             .await
///             .unwrap()
///             .unwrap();
///     }
///     res
/// }
/// ```
pub open spec fn guarded(expr: Expr) -> Expr {
    Expr::Block {
        attrs: no_tokens(),
        label: no_tokens(),
        block: Block {
            stmts: cons(
                Stmt::Local {
                    attrs: no_tokens(),
                    pat: Tokens::Fresh("res"),
                    init: Some(LocalInit { expr: Box::new(expr), diverge: None }),
                },
                cons(
                    Stmt::Expr { expr: Box::new(leave_raw_mode_on_error()), semi: false },
                    cons(
                        Stmt::Expr { expr: Box::new(Expr::Path(Tokens::Fresh("res"))), semi: false },
                        List::Nil,
                    ),
                ),
            ),
        },
    }
}

/// The list with `head` put in front of `tail`.
pub open spec fn cons<T>(head: T, tail: List<T>) -> List<T> {
    List::Cons(Box::new(head), Box::new(tail))
}

/// `if res.is_err() && .. { .. }`, the middle statement of a guard.
pub open spec fn leave_raw_mode_on_error() -> Expr {
    Expr::If {
        attrs: no_tokens(),
        cond: Box::new(failed_in_raw_mode()),
        then_branch: Block {
            stmts: cons(Stmt::Expr { expr: Box::new(leave_raw_mode()), semi: true }, List::Nil),
        },
        else_branch: None,
    }
}

/// A call of a method without arguments.
pub open spec fn method_call(receiver: Expr, method: &'static str) -> Expr {
    Expr::MethodCall {
        attrs: no_tokens(),
        receiver: Box::new(receiver),
        method: Tokens::Fresh(method),
        args: List::Nil,
    }
}

/// `res.is_err() && ::crossterm::terminal::is_raw_mode_enabled().unwrap()`
pub open spec fn failed_in_raw_mode() -> Expr {
    Expr::Binary {
        attrs: no_tokens(),
        left: Box::new(method_call(Expr::Path(Tokens::Fresh("res")), "is_err")),
        op: Tokens::Fresh("&&"),
        right: Box::new(
            method_call(
                Expr::Call {
                    attrs: no_tokens(),
                    func: Box::new(Expr::Path(Tokens::Fresh("::crossterm::terminal::is_raw_mode_enabled"))),
                    args: List::Nil,
                },
                "unwrap",
            ),
        ),
    }
}

/// `::tokio::task::spawn_blocking(::crossterm::terminal::disable_raw_mode).await.unwrap().unwrap()`
pub open spec fn leave_raw_mode() -> Expr {
    method_call(
        method_call(
            Expr::Await {
                attrs: no_tokens(),
                base: Box::new(
                    Expr::Call {
                        attrs: no_tokens(),
                        func: Box::new(Expr::Path(Tokens::Fresh("::tokio::task::spawn_blocking"))),
                        args: cons(
                            Expr::Path(Tokens::Fresh("::crossterm::terminal::disable_raw_mode")),
                            List::Nil,
                        ),
                    },
                ),
            },
            "unwrap",
        ),
        "unwrap",
    )
}

/// The expression with its fallible points guarded.
pub open spec fn expanded(expr: Expr) -> Expr
    decreases expr,
{
    match expr {
        Expr::Try { attrs, expr } => Expr::Try { attrs, expr: Box::new(guarded(expanded(*expr))) },
        Expr::Await { attrs, base } => Expr::Await { attrs, base: Box::new(expanded(*base)) },
        Expr::Yield { attrs, value } => Expr::Yield { attrs, value: expanded_option(value) },
        Expr::Array { attrs, elems } => Expr::Array { attrs, elems: expanded_list(elems) },
        Expr::Tuple { attrs, elems } => Expr::Tuple { attrs, elems: expanded_list(elems) },
        Expr::Assign { attrs, left, right } => Expr::Assign {
            attrs,
            left: Box::new(expanded(*left)),
            right: Box::new(expanded(*right)),
        },
        Expr::Binary { attrs, left, op, right } => Expr::Binary {
            attrs,
            left: Box::new(expanded(*left)),
            op,
            right: Box::new(expanded(*right)),
        },
        Expr::Index { attrs, expr, index } => Expr::Index {
            attrs,
            expr: Box::new(expanded(*expr)),
            index: Box::new(expanded(*index)),
        },
        Expr::Repeat { attrs, expr, len } => Expr::Repeat {
            attrs,
            expr: Box::new(expanded(*expr)),
            len: Box::new(expanded(*len)),
        },
        Expr::Block { attrs, label, block } => Expr::Block { attrs, label, block: expanded_block(block) },
        Expr::Const { attrs, block } => Expr::Const { attrs, block: expanded_block(block) },
        Expr::Loop { attrs, label, body } => Expr::Loop { attrs, label, body: expanded_block(body) },
        Expr::Unsafe { attrs, block } => Expr::Unsafe { attrs, block: expanded_block(block) },
        Expr::Break { attrs, label, value } => Expr::Break { attrs, label, value: expanded_option(value) },
        Expr::Cast { attrs, expr, ty } => Expr::Cast { attrs, expr: Box::new(expanded(*expr)), ty },
        Expr::Group { attrs, expr } => Expr::Group { attrs, expr: Box::new(expanded(*expr)) },
        Expr::Let { attrs, pat, expr } => Expr::Let { attrs, pat, expr: Box::new(expanded(*expr)) },
        Expr::Paren { attrs, expr } => Expr::Paren { attrs, expr: Box::new(expanded(*expr)) },
        Expr::RawAddr { attrs, mutability, expr } => Expr::RawAddr {
            attrs,
            mutability,
            expr: Box::new(expanded(*expr)),
        },
        Expr::Reference { attrs, mutability, expr } => Expr::Reference {
            attrs,
            mutability,
            expr: Box::new(expanded(*expr)),
        },
        Expr::Return { attrs, value } => Expr::Return { attrs, value: expanded_option(value) },
        Expr::Unary { attrs, op, expr } => Expr::Unary { attrs, op, expr: Box::new(expanded(*expr)) },
        Expr::Field { attrs, base, member } => Expr::Field { attrs, base: Box::new(expanded(*base)), member },
        Expr::Struct { attrs, path, fields, dots, rest } => Expr::Struct {
            attrs,
            path,
            fields: expanded_fields(fields),
            dots,
            rest: expanded_option(rest),
        },
        Expr::Call { attrs, func, args } => Expr::Call {
            attrs,
            func: Box::new(expanded(*func)),
            args: expanded_list(args),
        },
        Expr::MethodCall { attrs, receiver, method, args } => Expr::MethodCall {
            attrs,
            receiver: Box::new(expanded(*receiver)),
            method,
            args: expanded_list(args),
        },
        Expr::ForLoop { attrs, label, pat, expr, body } => Expr::ForLoop {
            attrs,
            label,
            pat,
            expr: Box::new(expanded(*expr)),
            body: expanded_block(body),
        },
        Expr::While { attrs, label, cond, body } => Expr::While {
            attrs,
            label,
            cond: Box::new(expanded(*cond)),
            body: expanded_block(body),
        },
        Expr::If { attrs, cond, then_branch, else_branch } => Expr::If {
            attrs,
            cond: Box::new(expanded(*cond)),
            then_branch: expanded_block(then_branch),
            else_branch: expanded_option(else_branch),
        },
        Expr::Match { attrs, expr, arms } => Expr::Match {
            attrs,
            expr: Box::new(expanded(*expr)),
            arms: expanded_arms(arms),
        },
        Expr::Range { attrs, start, limits, end } => Expr::Range {
            attrs,
            start: expanded_option(start),
            limits,
            end: expanded_option(end),
        },
        // Scopes that `?` does not leave for the function, and what holds no expressions.
        Expr::Async { .. }
        | Expr::Closure { .. }
        | Expr::Continue(_)
        | Expr::Infer(_)
        | Expr::Lit(_)
        | Expr::Macro(_)
        | Expr::Path(_)
        | Expr::TryBlock { .. }
        | Expr::Verbatim(_) => expr,
    }
}

/// Every expression of the list with its fallible points guarded.
pub open spec fn expanded_list(exprs: List<Expr>) -> List<Expr>
    decreases exprs,
{
    match exprs {
        List::Nil => List::Nil,
        List::Cons(head, tail) => List::Cons(Box::new(expanded(*head)), Box::new(expanded_list(*tail))),
    }
}

/// The expression, if there is one, with its fallible points guarded.
pub open spec fn expanded_option(expr: Option<Box<Expr>>) -> Option<Box<Expr>>
    decreases expr,
{
    match expr {
        None => None,
        Some(expr) => Some(Box::new(expanded(*expr))),
    }
}

/// The fields of a struct expression with the fallible points of their values guarded.
pub open spec fn expanded_fields(fields: List<FieldValue>) -> List<FieldValue>
    decreases fields,
{
    match fields {
        List::Nil => List::Nil,
        List::Cons(field, tail) => List::Cons(
            Box::new(FieldValue { head: field.head, expr: Box::new(expanded(*field.expr)) }),
            Box::new(expanded_fields(*tail)),
        ),
    }
}

/// The arms with the fallible points of their guards and bodies guarded.
pub open spec fn expanded_arms(arms: List<Arm>) -> List<Arm>
    decreases arms,
{
    match arms {
        List::Nil => List::Nil,
        List::Cons(arm, tail) => List::Cons(
            Box::new(
                Arm {
                    attrs: arm.attrs,
                    pat: arm.pat,
                    guard: expanded_option(arm.guard),
                    body: Box::new(expanded(*arm.body)),
                },
            ),
            Box::new(expanded_arms(*tail)),
        ),
    }
}

/// The block with the fallible points of its statements guarded.
pub open spec fn expanded_block(block: Block) -> Block
    decreases block,
{
    Block { stmts: expanded_stmts(block.stmts) }
}

/// The statements with their fallible points guarded.
pub open spec fn expanded_stmts(stmts: List<Stmt>) -> List<Stmt>
    decreases stmts,
{
    match stmts {
        List::Nil => List::Nil,
        List::Cons(stmt, tail) => List::Cons(Box::new(expanded_stmt(*stmt)), Box::new(expanded_stmts(*tail))),
    }
}

/// The statement with its fallible points guarded.
pub open spec fn expanded_stmt(stmt: Stmt) -> Stmt
    decreases stmt,
{
    match stmt {
        Stmt::Local { attrs, pat, init: Some(init) } => Stmt::Local {
            attrs,
            pat,
            init: Some(
                LocalInit { expr: Box::new(expanded(*init.expr)), diverge: expanded_option(init.diverge) },
            ),
        },
        Stmt::Expr { expr, semi } => Stmt::Expr { expr: Box::new(expanded(*expr)), semi },
        Stmt::Local { init: None, .. } | Stmt::Item(_) | Stmt::Macro(_) => stmt,
    }
}

/// Guards the fallible points of a block.
pub fn handle_block(block: &mut Block)
    ensures
        *final(block) == expanded_block(*old(block)),
    decreases *old(block),
{
    handle_stmts(&mut block.stmts);
}

/// Guards the fallible points of the statements.
fn handle_stmts(stmts: &mut List<Stmt>)
    ensures
        *final(stmts) == expanded_stmts(*old(stmts)),
    decreases *old(stmts),
{
    match stmts {
        List::Nil => {},
        List::Cons(stmt, tail) => {
            handle_stmt(stmt);
            handle_stmts(tail);
        },
    }
}

/// Guards the fallible points of a statement.
fn handle_stmt(stmt: &mut Stmt)
    ensures
        *final(stmt) == expanded_stmt(*old(stmt)),
    decreases *old(stmt),
{
    match stmt {
        Stmt::Local { init: Some(LocalInit { expr, diverge }), .. } => {
            handle_expr(expr);
            handle_option(diverge);
        },
        Stmt::Expr { expr, .. } => handle_expr(expr),
        Stmt::Local { init: None, .. } | Stmt::Item(_) | Stmt::Macro(_) => {},
    }
}

/// Guards the fallible points of every expression in the list.
fn handle_list(exprs: &mut List<Expr>)
    ensures
        *final(exprs) == expanded_list(*old(exprs)),
    decreases *old(exprs),
{
    match exprs {
        List::Nil => {},
        List::Cons(head, tail) => {
            handle_expr(head);
            handle_list(tail);
        },
    }
}

/// Guards the fallible points of the expression, if there is one.
fn handle_option(expr: &mut Option<Box<Expr>>)
    ensures
        *final(expr) == expanded_option(*old(expr)),
    decreases *old(expr),
{
    match expr {
        None => {},
        Some(expr) => handle_expr(expr),
    }
}

/// Guards the fallible points of the fields of a struct expression.
fn handle_fields(fields: &mut List<FieldValue>)
    ensures
        *final(fields) == expanded_fields(*old(fields)),
    decreases *old(fields),
{
    match fields {
        List::Nil => {},
        List::Cons(field, tail) => {
            handle_expr(&mut field.expr);
            handle_fields(tail);
        },
    }
}

/// Guards the fallible points of the arms.
fn handle_arms(arms: &mut List<Arm>)
    ensures
        *final(arms) == expanded_arms(*old(arms)),
    decreases *old(arms),
{
    match arms {
        List::Nil => {},
        List::Cons(arm, tail) => {
            handle_option(&mut arm.guard);
            handle_expr(&mut arm.body);
            handle_arms(tail);
        },
    }
}

/// Puts the guard around an expression.
fn guard(expr: Expr) -> (r: Expr)
    ensures
        r == guarded(expr),
{
    let none: Tokens = Tokens::Fresh("");
    let res_failed = Expr::MethodCall {
        attrs: none,
        receiver: Box::new(Expr::Path(Tokens::Fresh("res"))),
        method: Tokens::Fresh("is_err"),
        args: List::Nil,
    };
    let raw_mode = Expr::MethodCall {
        attrs: none,
        receiver: Box::new(
            Expr::Call {
                attrs: none,
                func: Box::new(Expr::Path(Tokens::Fresh("::crossterm::terminal::is_raw_mode_enabled"))),
                args: List::Nil,
            },
        ),
        method: Tokens::Fresh("unwrap"),
        args: List::Nil,
    };
    let spawned = Expr::Await {
        attrs: none,
        base: Box::new(
            Expr::Call {
                attrs: none,
                func: Box::new(Expr::Path(Tokens::Fresh("::tokio::task::spawn_blocking"))),
                args: List::Cons(
                    Box::new(Expr::Path(Tokens::Fresh("::crossterm::terminal::disable_raw_mode"))),
                    Box::new(List::Nil),
                ),
            },
        ),
    };
    let joined = Expr::MethodCall {
        attrs: none,
        receiver: Box::new(spawned),
        method: Tokens::Fresh("unwrap"),
        args: List::Nil,
    };
    let disabled = Expr::MethodCall {
        attrs: none,
        receiver: Box::new(joined),
        method: Tokens::Fresh("unwrap"),
        args: List::Nil,
    };
    let on_error = Expr::If {
        attrs: none,
        cond: Box::new(
            Expr::Binary {
                attrs: none,
                left: Box::new(res_failed),
                op: Tokens::Fresh("&&"),
                right: Box::new(raw_mode),
            },
        ),
        then_branch: Block {
            stmts: List::Cons(
                Box::new(Stmt::Expr { expr: Box::new(disabled), semi: true }),
                Box::new(List::Nil),
            ),
        },
        else_branch: None,
    };
    let result = List::Cons(
        Box::new(Stmt::Expr { expr: Box::new(Expr::Path(Tokens::Fresh("res"))), semi: false }),
        Box::new(List::Nil),
    );
    let checked = List::Cons(
        Box::new(Stmt::Expr { expr: Box::new(on_error), semi: false }),
        Box::new(result),
    );
    let bound = Stmt::Local {
        attrs: none,
        pat: Tokens::Fresh("res"),
        init: Some(LocalInit { expr: Box::new(expr), diverge: None }),
    };
    Expr::Block {
        attrs: none,
        label: none,
        block: Block { stmts: List::Cons(Box::new(bound), Box::new(checked)) },
    }
}

/// Guards the fallible points of an expression.
pub fn handle_expr(expr: &mut Expr)
    ensures
        *final(expr) == expanded(*old(expr)),
    decreases *old(expr),
{
    match expr {
        Expr::Try { expr, .. } => {
            handle_expr(expr);
            let mut operand = Expr::Infer(Tokens::Fresh(""));
            core::mem::swap(&mut operand, &mut **expr);
            **expr = guard(operand);
        },
        Expr::Await { base, .. } => handle_expr(base),
        Expr::Yield { value, .. } => handle_option(value),
        Expr::Array { elems, .. } => handle_list(elems),
        Expr::Tuple { elems, .. } => handle_list(elems),
        Expr::Assign { left, right, .. } => {
            handle_expr(left);
            handle_expr(right);
        },
        Expr::Binary { left, right, .. } => {
            handle_expr(left);
            handle_expr(right);
        },
        Expr::Index { expr, index, .. } => {
            handle_expr(expr);
            handle_expr(index);
        },
        Expr::Repeat { expr, len, .. } => {
            handle_expr(expr);
            handle_expr(len);
        },
        Expr::Block { block, .. } => handle_block(block),
        Expr::Const { block, .. } => handle_block(block),
        Expr::Loop { body, .. } => handle_block(body),
        Expr::Unsafe { block, .. } => handle_block(block),
        Expr::Break { value, .. } => handle_option(value),
        Expr::Cast { expr, .. } => handle_expr(expr),
        Expr::Group { expr, .. } => handle_expr(expr),
        Expr::Let { expr, .. } => handle_expr(expr),
        Expr::Paren { expr, .. } => handle_expr(expr),
        Expr::RawAddr { expr, .. } => handle_expr(expr),
        Expr::Reference { expr, .. } => handle_expr(expr),
        Expr::Return { value, .. } => handle_option(value),
        Expr::Unary { expr, .. } => handle_expr(expr),
        Expr::Field { base, .. } => handle_expr(base),
        Expr::Struct { fields, rest, .. } => {
            handle_fields(fields);
            handle_option(rest);
        },
        Expr::Call { func, args, .. } => {
            handle_expr(func);
            handle_list(args);
        },
        Expr::MethodCall { receiver, args, .. } => {
            handle_expr(receiver);
            handle_list(args);
        },
        Expr::ForLoop { expr, body, .. } => {
            handle_expr(expr);
            handle_block(body);
        },
        Expr::While { cond, body, .. } => {
            handle_expr(cond);
            handle_block(body);
        },
        Expr::If { cond, then_branch, else_branch, .. } => {
            handle_expr(cond);
            handle_block(then_branch);
            handle_option(else_branch);
        },
        Expr::Match { expr, arms, .. } => {
            handle_expr(expr);
            handle_arms(arms);
        },
        Expr::Range { start, end, .. } => {
            handle_option(start);
            handle_option(end);
        },
        Expr::Async { .. }
        | Expr::Closure { .. }
        | Expr::Continue(_)
        | Expr::Infer(_)
        | Expr::Lit(_)
        | Expr::Macro(_)
        | Expr::Path(_)
        | Expr::TryBlock { .. }
        | Expr::Verbatim(_) => {},
    }
}

} // verus!
