//! Small facts about expressions and the functions that they stand for.

use crate::extract::{
    FunctionLikeView, bodied, extracted_from, replaced_in, wrapped_function_like,
};
use crate::utils::{in_parens, strip_parens};
use crate::view::{ExprView, IdentView};
use vstd::prelude::*;

verus! {

/// Looking for a function under parentheses is looking for it in what
/// stands inside them.
pub proof fn lemma_extract_under_parens(e: ExprView)
    ensures
        extracted_from(e, true) == extracted_from(strip_parens(e), false),
    decreases e,
{
    match e {
        ExprView::Paren(p) => {
            lemma_extract_under_parens(*p.expr);
        },
        _ => {},
    }
}

/// Putting a function in the place of the one that an expression stands for
/// under parentheses is putting it there in what stands inside them.
pub proof fn lemma_replace_under_parens(e: ExprView, f: FunctionLikeView)
    ensures
        replaced_in(e, f, true) == in_parens(e, replaced_in(strip_parens(e), f, false)),
    decreases e,
{
    match e {
        ExprView::Paren(p) => {
            lemma_replace_under_parens(*p.expr, f);
        },
        _ => {},
    }
}

/// Putting back what stands inside the parentheses of an expression gives
/// the expression.
pub proof fn lemma_in_parens_same(e: ExprView)
    ensures
        in_parens(e, strip_parens(e)) == e,
    decreases e,
{
    match e {
        ExprView::Paren(p) => {
            lemma_in_parens_same(*p.expr);
        },
        _ => {},
    }
}

/// Wrapping the body of a function that has none leaves the expression
/// that stands for it as it is.
pub proof fn lemma_wrap_without_body(
    e: ExprView,
    through_parens: bool,
    tracker: IdentView,
    effect: IdentView,
    arg: Option<u8>,
)
    requires
        extracted_from(e, through_parens) matches Some(f) && !bodied(f),
    ensures
        replaced_in(
            e,
            wrapped_function_like(
                extracted_from(e, through_parens)->Some_0,
                tracker,
                effect,
                arg,
            ),
            through_parens,
        ) == e,
    decreases e,
{
    match e {
        ExprView::Call(c) => {
            lemma_wrap_without_body(*c.args[0].expr, true, tracker, effect, arg);
            assert(c.args.update(0, c.args[0]) =~= c.args);
        },
        ExprView::Paren(p) => {
            lemma_wrap_without_body(*p.expr, true, tracker, effect, arg);
        },
        _ => {},
    }
}

} // verus!
