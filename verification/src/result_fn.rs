//! Accepts the functions whose fallible points can be guarded.
use vstd::prelude::*;
use crate::expand;
use crate::expand::handle_block;
use crate::syntax::{ItemFn, ReturnType};

verus! {

/// A function that returns a `Result`, with its fallible points guarded.
#[derive(Debug, PartialEq, Eq)]
pub struct ResultFn(pub ItemFn);

/// Why a function was not rewritten.
#[derive(Debug, PartialEq, Eq)]
pub enum DeferError<E> {
    /// The attribute was given parameters.
    Parameters,
    /// What the attribute annotates is not a function.
    Syntax(E),
    /// The function does not return a `Result`.
    ReturnType,
}

impl<E> DeferError<E> {
    /// What went wrong, in words, where the reader of the function has not said so already.
    pub open spec fn text(self) -> Option<Seq<char>> {
        match self {
            DeferError::Parameters => Some("this macro does not accept parameters"@),
            DeferError::Syntax(_) => None,
            DeferError::ReturnType => Some(
                "unexpected end of input, this attribute should only annotate functions returning `anyhow::Result`"@,
            ),
        }
    }

    /// What went wrong, in words, where the reader of the function has not said so already.
    pub fn message(&self) -> (message: Option<&'static str>)
        ensures
            match message {
                Some(message) => self.text() == Some(message@),
                None => self.text() is None,
            },
    {
        match self {
            DeferError::Parameters => Some("this macro does not accept parameters"),
            DeferError::Syntax(_) => None,
            DeferError::ReturnType => Some(
                "unexpected end of input, this attribute should only annotate functions returning `anyhow::Result`",
            ),
        }
    }
}

/// The return type is a path whose last segment is `Result`.
pub open spec fn returns_result(output: ReturnType) -> bool {
    match output {
        ReturnType::Path(segments) => segments@.len() > 0 && segments@.last()@ == "Result"@,
        ReturnType::Default | ReturnType::Other => false,
    }
}

/// Tells whether the return type is a path whose last segment is `Result`.
pub fn ensure_retval(output: &ReturnType) -> (r: bool)
    ensures
        r == returns_result(*output),
{
    match output {
        ReturnType::Path(segments) => segments.len() > 0 && segments[segments.len() - 1] == "Result".to_owned(),
        ReturnType::Default | ReturnType::Other => false,
    }
}

/// The function with its fallible points guarded.
pub open spec fn guarded_fn(func: ItemFn) -> ItemFn {
    ItemFn { head: func.head, output: func.output, block: expand::expanded_block(func.block) }
}

impl ResultFn {
    /// Guards the fallible points of a function that returns a `Result`, and refuses any other.
    pub fn parse<E>(func: ItemFn) -> (r: Result<ResultFn, DeferError<E>>)
        ensures
            r == (if returns_result(func.output) {
                Ok(ResultFn(guarded_fn(func)))
            } else {
                Err(DeferError::<E>::ReturnType)
            }),
    {
        let mut func = func;
        if !ensure_retval(&func.output) {
            return Err(DeferError::ReturnType);
        }
        handle_block(&mut func.block);
        Ok(ResultFn(func))
    }
}

/// Defers leaving the terminal's raw mode by rewriting the annotated function at its fallible points, the expressions
/// annotated with `?`.
///
/// `func` is the function, or why what is annotated is not one. The attribute takes no parameters.
pub fn defer_drm<E>(params_empty: bool, func: Result<ItemFn, E>) -> (r: Result<ResultFn, DeferError<E>>)
    ensures
        r == (if !params_empty {
            Err(DeferError::<E>::Parameters)
        } else {
            match func {
                Err(e) => Err(DeferError::Syntax(e)),
                Ok(func) => if returns_result(func.output) {
                    Ok(ResultFn(guarded_fn(func)))
                } else {
                    Err(DeferError::<E>::ReturnType)
                },
            }
        }),
{
    if !params_empty {
        return Err(DeferError::Parameters);
    }
    match func {
        Err(e) => Err(DeferError::Syntax(e)),
        Ok(func) => ResultFn::parse(func),
    }
}

/// A return type is accepted exactly if it is a path whose last segment is the identifier `Result`, whatever comes
/// before it.
pub proof fn only_paths_to_result_are_accepted(segments: Vec<String>)
    ensures
        returns_result(ReturnType::Path(segments)) <==> segments@.len() > 0 && segments@[segments@.len() - 1]@
            == seq!['R', 'e', 's', 'u', 'l', 't'],
        !returns_result(ReturnType::Default),
        !returns_result(ReturnType::Other),
{
    reveal_strlit("Result");
    assert("Result"@ =~= seq!['R', 'e', 's', 'u', 'l', 't']);
}

/// Only the body of a function is rewritten.
pub proof fn only_the_body_is_rewritten(func: ItemFn)
    ensures
        guarded_fn(func).head == func.head,
        guarded_fn(func).output == func.output,
        guarded_fn(func).block == expand::expanded_block(func.block),
{
}

} // verus!
