use ostep::expand::{handle_block, handle_expr};
use ostep::result_fn::{defer_drm, ensure_retval, DeferError, ResultFn};
use ostep::syntax::{Arm, Block, Expr, FieldValue, ItemFn, List, LocalInit, ReturnType, Stmt, Tokens};

const NONE: Tokens = Tokens::Fresh("");

fn path(n: usize) -> Expr {
    Expr::Path(Tokens::Source(n))
}

fn fresh(text: &'static str) -> Expr {
    Expr::Path(Tokens::Fresh(text))
}

fn fallible(expr: Expr) -> Expr {
    Expr::Try { attrs: NONE, expr: Box::new(expr) }
}

fn list<T>(items: Vec<T>) -> List<T> {
    items.into_iter().rev().fold(List::Nil, |tail, head| List::Cons(Box::new(head), Box::new(tail)))
}

fn call(func: Expr, args: Vec<Expr>) -> Expr {
    Expr::Call { attrs: NONE, func: Box::new(func), args: list(args) }
}

fn method(receiver: Expr, name: &'static str) -> Expr {
    Expr::MethodCall { attrs: NONE, receiver: Box::new(receiver), method: Tokens::Fresh(name), args: List::Nil }
}

fn stmt(expr: Expr, semi: bool) -> Stmt {
    Stmt::Expr { expr: Box::new(expr), semi }
}

fn block(stmts: Vec<Stmt>) -> Block {
    Block { stmts: list(stmts) }
}

/// The guard, written out.
fn guard(expr: Expr) -> Expr {
    let raw_mode = method(call(fresh("::crossterm::terminal::is_raw_mode_enabled"), vec![]), "unwrap");
    let disable = call(
        fresh("::tokio::task::spawn_blocking"),
        vec![fresh("::crossterm::terminal::disable_raw_mode")],
    );
    let disable = method(method(Expr::Await { attrs: NONE, base: Box::new(disable) }, "unwrap"), "unwrap");
    let check = Expr::If {
        attrs: NONE,
        cond: Box::new(Expr::Binary {
            attrs: NONE,
            left: Box::new(method(fresh("res"), "is_err")),
            op: Tokens::Fresh("&&"),
            right: Box::new(raw_mode),
        }),
        then_branch: block(vec![stmt(disable, true)]),
        else_branch: None,
    };
    let bind = Stmt::Local {
        attrs: NONE,
        pat: Tokens::Fresh("res"),
        init: Some(LocalInit { expr: Box::new(expr), diverge: None }),
    };
    Expr::Block {
        attrs: NONE,
        label: NONE,
        block: block(vec![bind, stmt(check, false), stmt(fresh("res"), false)]),
    }
}

fn handled(mut expr: Expr) -> Expr {
    handle_expr(&mut expr);
    expr
}

#[test]
fn a_fallible_expression_is_guarded() {
    assert_eq!(handled(fallible(path(1))), fallible(guard(path(1))));
}

#[test]
fn a_fallible_expression_inside_another_is_guarded_too() {
    let inner = call(fallible(guard(path(1))), vec![]);
    assert_eq!(handled(fallible(call(fallible(path(1)), vec![]))), fallible(guard(inner)));
    let thrice = fallible(fallible(fallible(path(1))));
    assert_eq!(handled(thrice), fallible(guard(fallible(guard(fallible(guard(path(1))))))));
}

#[test]
fn expressions_without_fallible_points_are_unchanged() {
    let expr = || call(path(1), vec![method(path(2), "a"), Expr::Lit(Tokens::Source(3))]);
    assert_eq!(handled(expr()), expr());
}

#[test]
fn every_fallible_expression_is_guarded() {
    let expr = call(fallible(path(1)), vec![fallible(path(2)), path(3), method(fallible(path(4)), "a")]);
    let expected = call(
        fallible(guard(path(1))),
        vec![fallible(guard(path(2))), path(3), method(fallible(guard(path(4))), "a")],
    );
    assert_eq!(handled(expr), expected);
}

#[test]
fn different_expressions_stay_different() {
    let exprs = || vec![path(1), fallible(path(1)), fallible(path(2)), guard(path(1)), fallible(guard(path(1)))];
    for (i, a) in exprs().into_iter().map(handled).enumerate() {
        for (k, b) in exprs().into_iter().map(handled).enumerate() {
            assert_eq!(a == b, i == k);
        }
    }
}

/// Every way in which an expression can stand inside another that is looked into.
fn contexts(inner: fn() -> Expr) -> Vec<Expr> {
    let boxed = || Box::new(inner());
    let other = || Box::new(path(9));
    let body = || block(vec![stmt(inner(), true)]);
    let empty = || block(vec![]);
    vec![
        Expr::Array { attrs: NONE, elems: list(vec![path(1), inner()]) },
        Expr::Tuple { attrs: NONE, elems: list(vec![inner(), path(1)]) },
        Expr::Assign { attrs: NONE, left: boxed(), right: other() },
        Expr::Assign { attrs: NONE, left: other(), right: boxed() },
        Expr::Binary { attrs: NONE, left: boxed(), op: Tokens::Source(2), right: boxed() },
        Expr::Index { attrs: NONE, expr: boxed(), index: boxed() },
        Expr::Repeat { attrs: NONE, expr: boxed(), len: boxed() },
        Expr::Block { attrs: NONE, label: Tokens::Source(3), block: body() },
        Expr::Const { attrs: NONE, block: body() },
        Expr::Loop { attrs: NONE, label: NONE, body: body() },
        Expr::Unsafe { attrs: NONE, block: body() },
        Expr::Break { attrs: NONE, label: NONE, value: Some(boxed()) },
        Expr::Cast { attrs: NONE, expr: boxed(), ty: Tokens::Source(4) },
        Expr::Group { attrs: NONE, expr: boxed() },
        Expr::Let { attrs: NONE, pat: Tokens::Source(5), expr: boxed() },
        Expr::Paren { attrs: NONE, expr: boxed() },
        Expr::RawAddr { attrs: NONE, mutability: NONE, expr: boxed() },
        Expr::Reference { attrs: NONE, mutability: Tokens::Source(6), expr: boxed() },
        Expr::Return { attrs: NONE, value: Some(boxed()) },
        Expr::Unary { attrs: NONE, op: Tokens::Source(7), expr: boxed() },
        Expr::Field { attrs: NONE, base: boxed(), member: Tokens::Source(8) },
        Expr::Struct {
            attrs: NONE,
            path: Tokens::Source(10),
            fields: List::Nil,
            dots: true,
            rest: Some(boxed()),
        },
        Expr::Struct {
            attrs: NONE,
            path: Tokens::Source(10),
            fields: list(vec![
                FieldValue { head: Tokens::Source(16), expr: boxed() },
                FieldValue { head: Tokens::Source(17), expr: other() },
                FieldValue { head: Tokens::Source(18), expr: boxed() },
            ]),
            dots: false,
            rest: None,
        },
        Expr::Await { attrs: NONE, base: boxed() },
        Expr::Yield { attrs: NONE, value: Some(boxed()) },
        call(inner(), vec![inner(), path(1)]),
        Expr::MethodCall { attrs: NONE, receiver: boxed(), method: Tokens::Source(11), args: list(vec![inner()]) },
        Expr::ForLoop { attrs: NONE, label: NONE, pat: Tokens::Source(12), expr: boxed(), body: body() },
        Expr::While { attrs: NONE, label: NONE, cond: boxed(), body: body() },
        Expr::If { attrs: NONE, cond: boxed(), then_branch: body(), else_branch: Some(boxed()) },
        Expr::If { attrs: NONE, cond: other(), then_branch: empty(), else_branch: None },
        Expr::Match {
            attrs: NONE,
            expr: boxed(),
            arms: list(vec![
                Arm { attrs: NONE, pat: Tokens::Source(13), guard: Some(boxed()), body: boxed() },
                Arm { attrs: NONE, pat: Tokens::Source(14), guard: None, body: boxed() },
            ]),
        },
        Expr::Range { attrs: NONE, start: Some(boxed()), limits: Tokens::Source(15), end: None },
        Expr::Range { attrs: NONE, start: None, limits: Tokens::Source(15), end: Some(boxed()) },
    ]
}

#[test]
fn fallible_points_are_guarded_wherever_they_stand() {
    let before = contexts(|| fallible(path(1)));
    let after = contexts(|| fallible(guard(path(1))));
    for (before, after) in before.into_iter().zip(after) {
        assert_eq!(handled(before), after);
    }
}

/// The expressions that are not looked into.
fn closed(inner: fn() -> Expr) -> Vec<Expr> {
    let boxed = || Box::new(inner());
    let body = || block(vec![stmt(inner(), true)]);
    vec![
        Expr::Async { attrs: NONE, capture: NONE, block: body() },
        Expr::Closure { head: Tokens::Source(2), result: boxed() },
        Expr::TryBlock { attrs: NONE, block: body() },
        Expr::Continue(Tokens::Source(4)),
        Expr::Infer(Tokens::Source(5)),
        Expr::Lit(Tokens::Source(6)),
        Expr::Macro(Tokens::Source(7)),
        Expr::Path(Tokens::Source(8)),
        Expr::Verbatim(Tokens::Source(9)),
        Expr::Break { attrs: NONE, label: NONE, value: None },
        Expr::Return { attrs: NONE, value: None },
        Expr::Yield { attrs: NONE, value: None },
    ]
}

#[test]
fn closed_expressions_are_left_alone() {
    for (before, after) in closed(|| fallible(path(1))).into_iter().zip(closed(|| fallible(path(1)))) {
        assert_eq!(handled(before), after);
    }
}

#[test]
fn the_statements_of_a_block_are_looked_into() {
    let stmts = |inner: fn() -> Expr| {
        block(vec![
            Stmt::Local {
                attrs: NONE,
                pat: Tokens::Source(1),
                init: Some(LocalInit { expr: Box::new(inner()), diverge: Some(Box::new(inner())) }),
            },
            Stmt::Local { attrs: NONE, pat: Tokens::Source(2), init: None },
            Stmt::Item(Tokens::Source(3)),
            Stmt::Macro(Tokens::Source(4)),
            stmt(inner(), true),
            stmt(inner(), false),
        ])
    };
    let mut before = stmts(|| fallible(path(1)));
    handle_block(&mut before);
    assert_eq!(before, stmts(|| fallible(guard(path(1)))));
}

fn function(output: ReturnType, expr: Expr) -> ItemFn {
    ItemFn { head: Tokens::Source(0), output, block: block(vec![stmt(expr, false)]) }
}

fn segments(names: &[&str]) -> ReturnType {
    ReturnType::Path(names.iter().map(|name| name.to_string()).collect())
}

#[test]
fn only_results_can_be_returned() {
    assert!(ensure_retval(&segments(&["Result"])));
    assert!(ensure_retval(&segments(&["anyhow", "Result"])));
    assert!(!ensure_retval(&segments(&["Result", "Inner"])));
    assert!(!ensure_retval(&segments(&["Option"])));
    assert!(!ensure_retval(&segments(&[])));
    assert!(!ensure_retval(&ReturnType::Default));
    assert!(!ensure_retval(&ReturnType::Other));
}

#[test]
fn a_function_is_rewritten() {
    let func: Result<ItemFn, &str> = Ok(function(segments(&["anyhow", "Result"]), fallible(path(1))));
    let expected = function(segments(&["anyhow", "Result"]), fallible(guard(path(1))));
    assert_eq!(defer_drm(true, func), Ok(ResultFn(expected)));
}

#[test]
fn what_cannot_be_rewritten_is_refused() {
    let plain = || function(ReturnType::Default, fallible(path(1)));
    assert_eq!(defer_drm::<&str>(true, Ok(plain())), Err(DeferError::ReturnType));
    assert_eq!(defer_drm(true, Err("syntax")), Err(DeferError::Syntax("syntax")));
    assert_eq!(defer_drm(false, Err("syntax")), Err(DeferError::Parameters));
    assert_eq!(defer_drm::<&str>(false, Ok(plain())), Err(DeferError::Parameters));
}

#[test]
fn refusals_have_words() {
    assert_eq!(DeferError::<()>::Parameters.message(), Some("this macro does not accept parameters"));
    assert_eq!(
        DeferError::<()>::ReturnType.message(),
        Some("unexpected end of input, this attribute should only annotate functions returning `anyhow::Result`")
    );
    assert_eq!(DeferError::Syntax("x").message(), None);
}
