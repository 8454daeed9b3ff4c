//! What guarding the fallible points of a function does to it, and what it leaves alone.
use vstd::prelude::*;
use crate::expand;
use crate::syntax::{Arm, Block, Expr, FieldValue, List, Stmt};

verus! {

/// The operands of every `?` through which a failure leaves the function that the expression is in. Those inside the
/// operand of another `?` come before it; apart from that, they come from left to right.
pub open spec fn tries(expr: Expr) -> Seq<Expr>
    decreases expr,
{
    match expr {
        Expr::Try { expr, .. } => tries(*expr).push(*expr),
        Expr::Await { base, .. } => tries(*base),
        Expr::Yield { value, .. } => tries_option(value),
        Expr::Array { elems, .. } => tries_list(elems),
        Expr::Tuple { elems, .. } => tries_list(elems),
        Expr::Assign { left, right, .. } => tries(*left) + tries(*right),
        Expr::Binary { left, right, .. } => tries(*left) + tries(*right),
        Expr::Index { expr, index, .. } => tries(*expr) + tries(*index),
        Expr::Repeat { expr, len, .. } => tries(*expr) + tries(*len),
        Expr::Block { block, .. } => tries_block(block),
        Expr::Const { block, .. } => tries_block(block),
        Expr::Loop { body, .. } => tries_block(body),
        Expr::Unsafe { block, .. } => tries_block(block),
        Expr::Break { value, .. } => tries_option(value),
        Expr::Cast { expr, .. } => tries(*expr),
        Expr::Group { expr, .. } => tries(*expr),
        Expr::Let { expr, .. } => tries(*expr),
        Expr::Paren { expr, .. } => tries(*expr),
        Expr::RawAddr { expr, .. } => tries(*expr),
        Expr::Reference { expr, .. } => tries(*expr),
        Expr::Return { value, .. } => tries_option(value),
        Expr::Unary { expr, .. } => tries(*expr),
        Expr::Field { base, .. } => tries(*base),
        Expr::Struct { fields, rest, .. } => tries_fields(fields) + tries_option(rest),
        Expr::Call { func, args, .. } => tries(*func) + tries_list(args),
        Expr::MethodCall { receiver, args, .. } => tries(*receiver) + tries_list(args),
        Expr::ForLoop { expr, body, .. } => tries(*expr) + tries_block(body),
        Expr::While { cond, body, .. } => tries(*cond) + tries_block(body),
        Expr::If { cond, then_branch, else_branch, .. } => tries(*cond) + tries_block(then_branch) + tries_option(
            else_branch,
        ),
        Expr::Match { expr, arms, .. } => tries(*expr) + tries_arms(arms),
        Expr::Range { start, end, .. } => tries_option(start) + tries_option(end),
        Expr::Async { .. }
        | Expr::Closure { .. }
        | Expr::Continue(_)
        | Expr::Infer(_)
        | Expr::Lit(_)
        | Expr::Macro(_)
        | Expr::Path(_)
        | Expr::TryBlock { .. }
        | Expr::Verbatim(_) => Seq::empty(),
    }
}

/// The operands of every `?` of the expressions, in order.
pub open spec fn tries_list(exprs: List<Expr>) -> Seq<Expr>
    decreases exprs,
{
    match exprs {
        List::Nil => Seq::empty(),
        List::Cons(head, tail) => tries(*head) + tries_list(*tail),
    }
}

/// The operands of every `?` of the expression, if there is one.
pub open spec fn tries_option(expr: Option<Box<Expr>>) -> Seq<Expr>
    decreases expr,
{
    match expr {
        None => Seq::empty(),
        Some(expr) => tries(*expr),
    }
}

/// The operands of every `?` of the fields of a struct expression, in order.
pub open spec fn tries_fields(fields: List<FieldValue>) -> Seq<Expr>
    decreases fields,
{
    match fields {
        List::Nil => Seq::empty(),
        List::Cons(field, tail) => tries(*field.expr) + tries_fields(*tail),
    }
}

/// The operands of every `?` of the arms, in order.
pub open spec fn tries_arms(arms: List<Arm>) -> Seq<Expr>
    decreases arms,
{
    match arms {
        List::Nil => Seq::empty(),
        List::Cons(arm, tail) => tries_option(arm.guard) + tries(*arm.body) + tries_arms(*tail),
    }
}

/// The operands of every `?` of a block, in order.
pub open spec fn tries_block(block: Block) -> Seq<Expr>
    decreases block,
{
    tries_stmts(block.stmts)
}

/// The operands of every `?` of the statements, in order.
pub open spec fn tries_stmts(stmts: List<Stmt>) -> Seq<Expr>
    decreases stmts,
{
    match stmts {
        List::Nil => Seq::empty(),
        List::Cons(stmt, tail) => tries_stmt(*stmt) + tries_stmts(*tail),
    }
}

/// The operands of every `?` of a statement, in order.
pub open spec fn tries_stmt(stmt: Stmt) -> Seq<Expr>
    decreases stmt,
{
    match stmt {
        Stmt::Local { init: Some(init), .. } => tries(*init.expr) + tries_option(init.diverge),
        Stmt::Expr { expr, .. } => tries(*expr),
        Stmt::Local { init: None, .. } | Stmt::Item(_) | Stmt::Macro(_) => Seq::empty(),
    }
}

/// The operand of a `?` in the rewritten function: the guard, around the operand with its own fallible points guarded.
pub open spec fn guarded_point(operand: Expr) -> Expr {
    expand::guarded(expand::expanded(operand))
}

/// The operands of a number of `?` in the rewritten function.
pub open spec fn all_guarded(operands: Seq<Expr>) -> Seq<Expr> {
    operands.map_values(|operand: Expr| guarded_point(operand))
}

proof fn lemma_all_guarded_concat(a: Seq<Expr>, b: Seq<Expr>)
    ensures
        all_guarded(a + b) == all_guarded(a) + all_guarded(b),
{
    assert(all_guarded(a + b) =~= all_guarded(a) + all_guarded(b));
}

/// The guard around an operand holds no `?` but those of the operand.
proof fn guard_adds_no_tries(operand: Expr)
    ensures
        tries(expand::guarded(operand)) == tries(operand),
{
    reveal_with_fuel(tries, 6);
    reveal_with_fuel(tries_list, 3);
    reveal_with_fuel(tries_stmts, 5);
    assert(tries(expand::failed_in_raw_mode()) =~= Seq::empty());
    assert(tries(expand::leave_raw_mode()) =~= Seq::empty());
    assert(tries(expand::leave_raw_mode_on_error()) =~= Seq::empty());
    assert(tries(expand::guarded(operand)) =~= tries(operand));
}

/// The rewriting puts the guard around the operand of every `?` of an expression, in place, and makes no others.
pub proof fn every_try_is_guarded(expr: Expr)
    ensures
        tries(expand::expanded(expr)) == all_guarded(tries(expr)),
    decreases expr,
{
    match expr {
        Expr::Try { expr: operand, .. } => {
            every_try_is_guarded(*operand);
            guard_adds_no_tries(expand::expanded(*operand));
            assert(all_guarded(tries(*operand).push(*operand)) =~= all_guarded(tries(*operand)).push(
                guarded_point(*operand),
            ));
        },
        Expr::Await { base, .. } => {
            every_try_is_guarded(*base);
        },
        Expr::Yield { value, .. } => {
            every_try_is_guarded_option(value);
        },
        Expr::Array { elems, .. } => {
            every_try_is_guarded_list(elems);
        },
        Expr::Tuple { elems, .. } => {
            every_try_is_guarded_list(elems);
        },
        Expr::Assign { left, right, .. } => {
            every_try_is_guarded(*left);
            every_try_is_guarded(*right);
            lemma_all_guarded_concat(tries(*left), tries(*right));
        },
        Expr::Binary { left, right, .. } => {
            every_try_is_guarded(*left);
            every_try_is_guarded(*right);
            lemma_all_guarded_concat(tries(*left), tries(*right));
        },
        Expr::Index { expr: inner, index, .. } => {
            every_try_is_guarded(*inner);
            every_try_is_guarded(*index);
            lemma_all_guarded_concat(tries(*inner), tries(*index));
        },
        Expr::Repeat { expr: inner, len, .. } => {
            every_try_is_guarded(*inner);
            every_try_is_guarded(*len);
            lemma_all_guarded_concat(tries(*inner), tries(*len));
        },
        Expr::Block { block, .. } => {
            every_try_is_guarded_block(block);
        },
        Expr::Const { block, .. } => {
            every_try_is_guarded_block(block);
        },
        Expr::Loop { body, .. } => {
            every_try_is_guarded_block(body);
        },
        Expr::Unsafe { block, .. } => {
            every_try_is_guarded_block(block);
        },
        Expr::Break { value, .. } => {
            every_try_is_guarded_option(value);
        },
        Expr::Cast { expr: inner, .. } => {
            every_try_is_guarded(*inner);
        },
        Expr::Group { expr: inner, .. } => {
            every_try_is_guarded(*inner);
        },
        Expr::Let { expr: inner, .. } => {
            every_try_is_guarded(*inner);
        },
        Expr::Paren { expr: inner, .. } => {
            every_try_is_guarded(*inner);
        },
        Expr::RawAddr { expr: inner, .. } => {
            every_try_is_guarded(*inner);
        },
        Expr::Reference { expr: inner, .. } => {
            every_try_is_guarded(*inner);
        },
        Expr::Return { value, .. } => {
            every_try_is_guarded_option(value);
        },
        Expr::Unary { expr: inner, .. } => {
            every_try_is_guarded(*inner);
        },
        Expr::Field { base, .. } => {
            every_try_is_guarded(*base);
        },
        Expr::Struct { fields, rest, .. } => {
            every_try_is_guarded_fields(fields);
            every_try_is_guarded_option(rest);
            lemma_all_guarded_concat(tries_fields(fields), tries_option(rest));
        },
        Expr::Call { func, args, .. } => {
            every_try_is_guarded(*func);
            every_try_is_guarded_list(args);
            lemma_all_guarded_concat(tries(*func), tries_list(args));
        },
        Expr::MethodCall { receiver, args, .. } => {
            every_try_is_guarded(*receiver);
            every_try_is_guarded_list(args);
            lemma_all_guarded_concat(tries(*receiver), tries_list(args));
        },
        Expr::ForLoop { expr: inner, body, .. } => {
            every_try_is_guarded(*inner);
            every_try_is_guarded_block(body);
            lemma_all_guarded_concat(tries(*inner), tries_block(body));
        },
        Expr::While { cond, body, .. } => {
            every_try_is_guarded(*cond);
            every_try_is_guarded_block(body);
            lemma_all_guarded_concat(tries(*cond), tries_block(body));
        },
        Expr::If { cond, then_branch, else_branch, .. } => {
            every_try_is_guarded(*cond);
            every_try_is_guarded_block(then_branch);
            every_try_is_guarded_option(else_branch);
            lemma_all_guarded_concat(tries(*cond), tries_block(then_branch));
            lemma_all_guarded_concat(tries(*cond) + tries_block(then_branch), tries_option(else_branch));
        },
        Expr::Match { expr: inner, arms, .. } => {
            every_try_is_guarded(*inner);
            every_try_is_guarded_arms(arms);
            lemma_all_guarded_concat(tries(*inner), tries_arms(arms));
        },
        Expr::Range { start, end, .. } => {
            every_try_is_guarded_option(start);
            every_try_is_guarded_option(end);
            lemma_all_guarded_concat(tries_option(start), tries_option(end));
        },
        _ => {
            assert(all_guarded(Seq::empty()) =~= Seq::empty());
        },
    }
}

proof fn every_try_is_guarded_list(exprs: List<Expr>)
    ensures
        tries_list(expand::expanded_list(exprs)) == all_guarded(tries_list(exprs)),
    decreases exprs,
{
    match exprs {
        List::Nil => {
            assert(all_guarded(Seq::empty()) =~= Seq::empty());
        },
        List::Cons(head, rest) => {
            every_try_is_guarded(*head);
            every_try_is_guarded_list(*rest);
            lemma_all_guarded_concat(tries(*head), tries_list(*rest));
        },
    }
}

proof fn every_try_is_guarded_option(expr: Option<Box<Expr>>)
    ensures
        tries_option(expand::expanded_option(expr)) == all_guarded(tries_option(expr)),
    decreases expr,
{
    match expr {
        None => {
            assert(all_guarded(Seq::empty()) =~= Seq::empty());
        },
        Some(inner) => {
            every_try_is_guarded(*inner);
        },
    }
}

proof fn every_try_is_guarded_fields(fields: List<FieldValue>)
    ensures
        tries_fields(expand::expanded_fields(fields)) == all_guarded(tries_fields(fields)),
    decreases fields,
{
    match fields {
        List::Nil => {
            assert(all_guarded(Seq::empty()) =~= Seq::empty());
        },
        List::Cons(field, rest) => {
            every_try_is_guarded(*field.expr);
            every_try_is_guarded_fields(*rest);
            lemma_all_guarded_concat(tries(*field.expr), tries_fields(*rest));
        },
    }
}

proof fn every_try_is_guarded_arms(arms: List<Arm>)
    ensures
        tries_arms(expand::expanded_arms(arms)) == all_guarded(tries_arms(arms)),
    decreases arms,
{
    match arms {
        List::Nil => {
            assert(all_guarded(Seq::empty()) =~= Seq::empty());
        },
        List::Cons(arm, rest) => {
            every_try_is_guarded_option(arm.guard);
            every_try_is_guarded(*arm.body);
            every_try_is_guarded_arms(*rest);
            lemma_all_guarded_concat(tries_option(arm.guard), tries(*arm.body));
            lemma_all_guarded_concat(tries_option(arm.guard) + tries(*arm.body), tries_arms(*rest));
        },
    }
}

/// The rewriting puts the guard around the operand of every `?` of a block, in place, and makes no others.
pub proof fn every_try_is_guarded_block(block: Block)
    ensures
        tries_block(expand::expanded_block(block)) == all_guarded(tries_block(block)),
    decreases block,
{
    every_try_is_guarded_stmts(block.stmts);
}

proof fn every_try_is_guarded_stmts(stmts: List<Stmt>)
    ensures
        tries_stmts(expand::expanded_stmts(stmts)) == all_guarded(tries_stmts(stmts)),
    decreases stmts,
{
    match stmts {
        List::Nil => {
            assert(all_guarded(Seq::empty()) =~= Seq::empty());
        },
        List::Cons(stmt, rest) => {
            every_try_is_guarded_stmt(*stmt);
            every_try_is_guarded_stmts(*rest);
            lemma_all_guarded_concat(tries_stmt(*stmt), tries_stmts(*rest));
        },
    }
}

proof fn every_try_is_guarded_stmt(stmt: Stmt)
    ensures
        tries_stmt(expand::expanded_stmt(stmt)) == all_guarded(tries_stmt(stmt)),
    decreases stmt,
{
    match stmt {
        Stmt::Local { init: Some(init), .. } => {
            every_try_is_guarded(*init.expr);
            every_try_is_guarded_option(init.diverge);
            lemma_all_guarded_concat(tries(*init.expr), tries_option(init.diverge));
        },
        Stmt::Expr { expr: inner, .. } => {
            every_try_is_guarded(*inner);
        },
        _ => {
            assert(all_guarded(Seq::empty()) =~= Seq::empty());
        },
    }
}

/// An expression without a `?` is left as it is.
pub proof fn without_tries_is_unchanged(expr: Expr)
    requires
        tries(expr).len() == 0,
    ensures
        expand::expanded(expr) == expr,
    decreases expr,
{
    match expr {
        Expr::Try { .. } => {},
        Expr::Await { base, .. } => {
            without_tries_is_unchanged(*base);
        },
        Expr::Yield { value, .. } => {
            without_tries_is_unchanged_option(value);
        },
        Expr::Array { elems, .. } => {
            without_tries_is_unchanged_list(elems);
        },
        Expr::Tuple { elems, .. } => {
            without_tries_is_unchanged_list(elems);
        },
        Expr::Assign { left, right, .. } => {
            without_tries_is_unchanged(*left);
            without_tries_is_unchanged(*right);
        },
        Expr::Binary { left, right, .. } => {
            without_tries_is_unchanged(*left);
            without_tries_is_unchanged(*right);
        },
        Expr::Index { expr: inner, index, .. } => {
            without_tries_is_unchanged(*inner);
            without_tries_is_unchanged(*index);
        },
        Expr::Repeat { expr: inner, len, .. } => {
            without_tries_is_unchanged(*inner);
            without_tries_is_unchanged(*len);
        },
        Expr::Block { block, .. } => {
            without_tries_is_unchanged_block(block);
        },
        Expr::Const { block, .. } => {
            without_tries_is_unchanged_block(block);
        },
        Expr::Loop { body, .. } => {
            without_tries_is_unchanged_block(body);
        },
        Expr::Unsafe { block, .. } => {
            without_tries_is_unchanged_block(block);
        },
        Expr::Break { value, .. } => {
            without_tries_is_unchanged_option(value);
        },
        Expr::Cast { expr: inner, .. } => {
            without_tries_is_unchanged(*inner);
        },
        Expr::Group { expr: inner, .. } => {
            without_tries_is_unchanged(*inner);
        },
        Expr::Let { expr: inner, .. } => {
            without_tries_is_unchanged(*inner);
        },
        Expr::Paren { expr: inner, .. } => {
            without_tries_is_unchanged(*inner);
        },
        Expr::RawAddr { expr: inner, .. } => {
            without_tries_is_unchanged(*inner);
        },
        Expr::Reference { expr: inner, .. } => {
            without_tries_is_unchanged(*inner);
        },
        Expr::Return { value, .. } => {
            without_tries_is_unchanged_option(value);
        },
        Expr::Unary { expr: inner, .. } => {
            without_tries_is_unchanged(*inner);
        },
        Expr::Field { base, .. } => {
            without_tries_is_unchanged(*base);
        },
        Expr::Struct { fields, rest, .. } => {
            without_tries_is_unchanged_fields(fields);
            without_tries_is_unchanged_option(rest);
        },
        Expr::Call { func, args, .. } => {
            without_tries_is_unchanged(*func);
            without_tries_is_unchanged_list(args);
        },
        Expr::MethodCall { receiver, args, .. } => {
            without_tries_is_unchanged(*receiver);
            without_tries_is_unchanged_list(args);
        },
        Expr::ForLoop { expr: inner, body, .. } => {
            without_tries_is_unchanged(*inner);
            without_tries_is_unchanged_block(body);
        },
        Expr::While { cond, body, .. } => {
            without_tries_is_unchanged(*cond);
            without_tries_is_unchanged_block(body);
        },
        Expr::If { cond, then_branch, else_branch, .. } => {
            without_tries_is_unchanged(*cond);
            without_tries_is_unchanged_block(then_branch);
            without_tries_is_unchanged_option(else_branch);
        },
        Expr::Match { expr: inner, arms, .. } => {
            without_tries_is_unchanged(*inner);
            without_tries_is_unchanged_arms(arms);
        },
        Expr::Range { start, end, .. } => {
            without_tries_is_unchanged_option(start);
            without_tries_is_unchanged_option(end);
        },
        _ => {},
    }
}

proof fn without_tries_is_unchanged_list(exprs: List<Expr>)
    requires
        tries_list(exprs).len() == 0,
    ensures
        expand::expanded_list(exprs) == exprs,
    decreases exprs,
{
    match exprs {
        List::Nil => {},
        List::Cons(head, rest) => {
            without_tries_is_unchanged(*head);
            without_tries_is_unchanged_list(*rest);
        },
    }
}

proof fn without_tries_is_unchanged_option(expr: Option<Box<Expr>>)
    requires
        tries_option(expr).len() == 0,
    ensures
        expand::expanded_option(expr) == expr,
    decreases expr,
{
    match expr {
        None => {},
        Some(inner) => {
            without_tries_is_unchanged(*inner);
        },
    }
}

proof fn without_tries_is_unchanged_fields(fields: List<FieldValue>)
    requires
        tries_fields(fields).len() == 0,
    ensures
        expand::expanded_fields(fields) == fields,
    decreases fields,
{
    match fields {
        List::Nil => {},
        List::Cons(field, rest) => {
            without_tries_is_unchanged(*field.expr);
            without_tries_is_unchanged_fields(*rest);
        },
    }
}

proof fn without_tries_is_unchanged_arms(arms: List<Arm>)
    requires
        tries_arms(arms).len() == 0,
    ensures
        expand::expanded_arms(arms) == arms,
    decreases arms,
{
    match arms {
        List::Nil => {},
        List::Cons(arm, rest) => {
            without_tries_is_unchanged_option(arm.guard);
            without_tries_is_unchanged(*arm.body);
            without_tries_is_unchanged_arms(*rest);
        },
    }
}

/// A block without a `?` is left as it is.
pub proof fn without_tries_is_unchanged_block(block: Block)
    requires
        tries_block(block).len() == 0,
    ensures
        expand::expanded_block(block) == block,
    decreases block,
{
    without_tries_is_unchanged_stmts(block.stmts);
}

proof fn without_tries_is_unchanged_stmts(stmts: List<Stmt>)
    requires
        tries_stmts(stmts).len() == 0,
    ensures
        expand::expanded_stmts(stmts) == stmts,
    decreases stmts,
{
    match stmts {
        List::Nil => {},
        List::Cons(stmt, rest) => {
            without_tries_is_unchanged_stmt(*stmt);
            without_tries_is_unchanged_stmts(*rest);
        },
    }
}

proof fn without_tries_is_unchanged_stmt(stmt: Stmt)
    requires
        tries_stmt(stmt).len() == 0,
    ensures
        expand::expanded_stmt(stmt) == stmt,
    decreases stmt,
{
    match stmt {
        Stmt::Local { init: Some(init), .. } => {
            without_tries_is_unchanged(*init.expr);
            without_tries_is_unchanged_option(init.diverge);
        },
        Stmt::Expr { expr: inner, .. } => {
            without_tries_is_unchanged(*inner);
        },
        _ => {},
    }
}

/// Different expressions have different guards around them.
proof fn guard_is_injective(a: Expr, b: Expr)
    requires
        expand::guarded(a) == expand::guarded(b),
    ensures
        a == b,
{
    assert(expand::guarded(a)->Block_block.stmts->Cons_0 == expand::guarded(b)->Block_block.stmts->Cons_0);
}

/// Guarding loses nothing of an expression: what has the same guarded form is the same.
pub proof fn guarding_is_injective(a: Expr, b: Expr)
    requires
        expand::expanded(a) == expand::expanded(b),
    ensures
        a == b,
    decreases a,
{
    match (a, b) {
        (Expr::Try { expr: x0, .. }, Expr::Try { expr: y0, .. }) => {
            guard_is_injective(expand::expanded(*x0), expand::expanded(*y0));
            guarding_is_injective(*x0, *y0);
        },
        (Expr::Await { base: x0, .. }, Expr::Await { base: y0, .. }) => {
            guarding_is_injective(*x0, *y0);
        },
        (Expr::Yield { value: x0, .. }, Expr::Yield { value: y0, .. }) => {
            guarding_is_injective_option(x0, y0);
        },
        (Expr::Array { elems: x0, .. }, Expr::Array { elems: y0, .. }) => {
            guarding_is_injective_list(x0, y0);
        },
        (Expr::Tuple { elems: x0, .. }, Expr::Tuple { elems: y0, .. }) => {
            guarding_is_injective_list(x0, y0);
        },
        (Expr::Assign { left: x0, right: x1, .. }, Expr::Assign { left: y0, right: y1, .. }) => {
            guarding_is_injective(*x0, *y0);
            guarding_is_injective(*x1, *y1);
        },
        (Expr::Binary { left: x0, right: x1, .. }, Expr::Binary { left: y0, right: y1, .. }) => {
            guarding_is_injective(*x0, *y0);
            guarding_is_injective(*x1, *y1);
        },
        (Expr::Index { expr: x0, index: x1, .. }, Expr::Index { expr: y0, index: y1, .. }) => {
            guarding_is_injective(*x0, *y0);
            guarding_is_injective(*x1, *y1);
        },
        (Expr::Repeat { expr: x0, len: x1, .. }, Expr::Repeat { expr: y0, len: y1, .. }) => {
            guarding_is_injective(*x0, *y0);
            guarding_is_injective(*x1, *y1);
        },
        (Expr::Block { block: x0, .. }, Expr::Block { block: y0, .. }) => {
            guarding_is_injective_block(x0, y0);
        },
        (Expr::Const { block: x0, .. }, Expr::Const { block: y0, .. }) => {
            guarding_is_injective_block(x0, y0);
        },
        (Expr::Loop { body: x0, .. }, Expr::Loop { body: y0, .. }) => {
            guarding_is_injective_block(x0, y0);
        },
        (Expr::Unsafe { block: x0, .. }, Expr::Unsafe { block: y0, .. }) => {
            guarding_is_injective_block(x0, y0);
        },
        (Expr::Break { value: x0, .. }, Expr::Break { value: y0, .. }) => {
            guarding_is_injective_option(x0, y0);
        },
        (Expr::Cast { expr: x0, .. }, Expr::Cast { expr: y0, .. }) => {
            guarding_is_injective(*x0, *y0);
        },
        (Expr::Group { expr: x0, .. }, Expr::Group { expr: y0, .. }) => {
            guarding_is_injective(*x0, *y0);
        },
        (Expr::Let { expr: x0, .. }, Expr::Let { expr: y0, .. }) => {
            guarding_is_injective(*x0, *y0);
        },
        (Expr::Paren { expr: x0, .. }, Expr::Paren { expr: y0, .. }) => {
            guarding_is_injective(*x0, *y0);
        },
        (Expr::RawAddr { expr: x0, .. }, Expr::RawAddr { expr: y0, .. }) => {
            guarding_is_injective(*x0, *y0);
        },
        (Expr::Reference { expr: x0, .. }, Expr::Reference { expr: y0, .. }) => {
            guarding_is_injective(*x0, *y0);
        },
        (Expr::Return { value: x0, .. }, Expr::Return { value: y0, .. }) => {
            guarding_is_injective_option(x0, y0);
        },
        (Expr::Unary { expr: x0, .. }, Expr::Unary { expr: y0, .. }) => {
            guarding_is_injective(*x0, *y0);
        },
        (Expr::Field { base: x0, .. }, Expr::Field { base: y0, .. }) => {
            guarding_is_injective(*x0, *y0);
        },
        (Expr::Struct { fields: x0, rest: x1, .. }, Expr::Struct { fields: y0, rest: y1, .. }) => {
            guarding_is_injective_fields(x0, y0);
            guarding_is_injective_option(x1, y1);
        },
        (Expr::Call { func: x0, args: x1, .. }, Expr::Call { func: y0, args: y1, .. }) => {
            guarding_is_injective(*x0, *y0);
            guarding_is_injective_list(x1, y1);
        },
        (Expr::MethodCall { receiver: x0, args: x1, .. }, Expr::MethodCall { receiver: y0, args: y1, .. }) => {
            guarding_is_injective(*x0, *y0);
            guarding_is_injective_list(x1, y1);
        },
        (Expr::ForLoop { expr: x0, body: x1, .. }, Expr::ForLoop { expr: y0, body: y1, .. }) => {
            guarding_is_injective(*x0, *y0);
            guarding_is_injective_block(x1, y1);
        },
        (Expr::While { cond: x0, body: x1, .. }, Expr::While { cond: y0, body: y1, .. }) => {
            guarding_is_injective(*x0, *y0);
            guarding_is_injective_block(x1, y1);
        },
        (
            Expr::If { cond: x0, then_branch: x1, else_branch: x2, .. },
            Expr::If { cond: y0, then_branch: y1, else_branch: y2, .. },
        ) => {
            guarding_is_injective(*x0, *y0);
            guarding_is_injective_block(x1, y1);
            guarding_is_injective_option(x2, y2);
        },
        (Expr::Match { expr: x0, arms: x1, .. }, Expr::Match { expr: y0, arms: y1, .. }) => {
            guarding_is_injective(*x0, *y0);
            guarding_is_injective_arms(x1, y1);
        },
        (Expr::Range { start: x0, end: x1, .. }, Expr::Range { start: y0, end: y1, .. }) => {
            guarding_is_injective_option(x0, y0);
            guarding_is_injective_option(x1, y1);
        },
        _ => {},
    }
}

proof fn guarding_is_injective_list(a: List<Expr>, b: List<Expr>)
    requires
        expand::expanded_list(a) == expand::expanded_list(b),
    ensures
        a == b,
    decreases a,
{
    if let (List::Cons(x, xs), List::Cons(y, ys)) = (a, b) {
        guarding_is_injective(*x, *y);
        guarding_is_injective_list(*xs, *ys);
    }
}

proof fn guarding_is_injective_option(a: Option<Box<Expr>>, b: Option<Box<Expr>>)
    requires
        expand::expanded_option(a) == expand::expanded_option(b),
    ensures
        a == b,
    decreases a,
{
    if let (Some(x), Some(y)) = (a, b) {
        guarding_is_injective(*x, *y);
    }
}

proof fn guarding_is_injective_fields(a: List<FieldValue>, b: List<FieldValue>)
    requires
        expand::expanded_fields(a) == expand::expanded_fields(b),
    ensures
        a == b,
    decreases a,
{
    if let (List::Cons(x, xs), List::Cons(y, ys)) = (a, b) {
        guarding_is_injective(*x.expr, *y.expr);
        guarding_is_injective_fields(*xs, *ys);
    }
}

proof fn guarding_is_injective_arms(a: List<Arm>, b: List<Arm>)
    requires
        expand::expanded_arms(a) == expand::expanded_arms(b),
    ensures
        a == b,
    decreases a,
{
    if let (List::Cons(x, xs), List::Cons(y, ys)) = (a, b) {
        guarding_is_injective_option(x.guard, y.guard);
        guarding_is_injective(*x.body, *y.body);
        guarding_is_injective_arms(*xs, *ys);
    }
}

/// Guarding loses nothing of a block: what has the same guarded form is the same.
pub proof fn guarding_is_injective_block(a: Block, b: Block)
    requires
        expand::expanded_block(a) == expand::expanded_block(b),
    ensures
        a == b,
    decreases a,
{
    guarding_is_injective_stmts(a.stmts, b.stmts);
}

proof fn guarding_is_injective_stmts(a: List<Stmt>, b: List<Stmt>)
    requires
        expand::expanded_stmts(a) == expand::expanded_stmts(b),
    ensures
        a == b,
    decreases a,
{
    if let (List::Cons(x, xs), List::Cons(y, ys)) = (a, b) {
        guarding_is_injective_stmt(*x, *y);
        guarding_is_injective_stmts(*xs, *ys);
    }
}

proof fn guarding_is_injective_stmt(a: Stmt, b: Stmt)
    requires
        expand::expanded_stmt(a) == expand::expanded_stmt(b),
    ensures
        a == b,
    decreases a,
{
    match (a, b) {
        (Stmt::Local { init: Some(x), .. }, Stmt::Local { init: Some(y), .. }) => {
            guarding_is_injective(*x.expr, *y.expr);
            guarding_is_injective_option(x.diverge, y.diverge);
        },
        (Stmt::Expr { expr: x, .. }, Stmt::Expr { expr: y, .. }) => {
            guarding_is_injective(*x, *y);
        },
        _ => {},
    }
}

/// What is inside a scope that `?` does not leave for the function is left alone: the result of a closure, and the
/// block of an `async` or `try` expression.
pub proof fn inner_scopes_are_left_alone(expr: Expr)
    requires
        expr is Closure || expr is Async || expr is TryBlock,
    ensures
        expand::expanded(expr) == expr,
        tries(expr).len() == 0,
{
}

} // verus!
