//! Properties of the transformation that hold for every input.
use crate::encoder::json_text;
use crate::mapper::{block_tree, expr_tree, fn_label, fn_tree, for_condition, functions_of, stmt_tree};
use crate::pad::PadTree;
use crate::program::{no_function_message, parse_error_message, program_tree};
use crate::syntax::{Expr, Item, Stmt};
use vstd::prelude::*;

verus! {

/// The number of `else if` arms of a conditional: how many times its else arm
/// is itself a conditional, following the chain.
pub open spec fn else_if_arms(e: Expr) -> nat
    decreases e,
{
    match e {
        Expr::If { else_branch: Some(b), .. } => match *b {
            Expr::If { .. } => 1 + else_if_arms(*b),
            _ => 0,
        },
        _ => 0,
    }
}

/// How deep `If` nodes nest under `else_block`, starting below `t`.
pub open spec fn else_nesting(t: PadTree) -> nat
    decreases t,
{
    match t {
        PadTree::If { else_block: Some(b), .. } => match *b {
            PadTree::If { .. } => 1 + else_nesting(*b),
            _ => 0,
        },
        _ => 0,
    }
}

/// A file with N function definitions gives a `Sequence` of exactly N
/// `Block` children, in source order, each labelled `fn <name>()` around the
/// diagram of that function's body.
pub proof fn lemma_functions_in_order(items: Vec<Item>)
    requires
        functions_of(items@).len() > 0,
    ensures
        program_tree(Ok(items)) is Sequence,
        program_tree(Ok(items))->Sequence_children.len() == functions_of(items@).len(),
        forall|i: int|
            0 <= i < functions_of(items@).len() ==> #[trigger] program_tree(
                Ok(items),
            )->Sequence_children[i] == (PadTree::Block {
                label: fn_label(functions_of(items@)[i].name@),
                children: seq![block_tree(functions_of(items@)[i].body)],
            }),
{
    let fns = functions_of(items@);
    assert forall|i: int| 0 <= i < fns.len() implies #[trigger] program_tree(
        Ok(items),
    )->Sequence_children[i] == fn_tree(fns[i]) by {}
}

/// A file with exactly one function definition gives a `Sequence` whose only
/// child is a `Block` labelled `fn <name>()`.
pub proof fn lemma_single_function(items: Vec<Item>)
    requires
        functions_of(items@).len() == 1,
    ensures
        program_tree(Ok(items)) is Sequence,
        program_tree(Ok(items))->Sequence_children.len() == 1,
        program_tree(Ok(items))->Sequence_children[0] is Block,
        program_tree(Ok(items))->Sequence_children[0]->Block_label == fn_label(
            functions_of(items@)[0].name@,
        ),
{
    lemma_functions_in_order(items);
}

/// A file without function definitions gives the error `No function found`,
/// never an empty diagram.
pub proof fn lemma_no_function(items: Vec<Item>)
    requires
        functions_of(items@).len() == 0,
    ensures
        program_tree(Ok(items)) == (PadTree::Error { message: no_function_message() }),
        no_function_message() == "No function found"@,
{
}

/// A file that did not parse gives an error whose message starts with
/// `Parse error: `.
pub proof fn lemma_parse_error(error: String)
    ensures
        program_tree(Err(error)) is Error,
        program_tree(Err(error))->Error_message == parse_error_message(error@),
        parse_error_message(error@).subrange(0, 13) == "Parse error: "@,
{
    reveal_strlit("Parse error: ");
    assert(parse_error_message(error@).subrange(0, 13) =~= "Parse error: "@);
}

/// The output is a function of the parse outcome alone: the same outcome
/// encodes to the same text every time.
pub proof fn lemma_deterministic(a: Result<Vec<Item>, String>, b: Result<Vec<Item>, String>)
    requires
        a == b,
    ensures
        json_text(program_tree(a)) == json_text(program_tree(b)),
{
}

/// A conditional maps to an `If` whose condition is the collapsed condition
/// text, whose else is absent exactly when the source has none and is
/// otherwise the diagram of the else arm; along an `else if` chain the `If`
/// nodes nest under `else_block` as deep as the chain has `else if` arms.
pub proof fn lemma_else_if_chain(e: Expr)
    requires
        e is If,
    ensures
        expr_tree(e) is If,
        (expr_tree(e)->If_else_block is None) == (e->If_else_branch is None),
        e->If_else_branch matches Some(b) ==> expr_tree(e)->If_else_block == Some(
            Box::new(expr_tree(*b)),
        ),
        else_nesting(expr_tree(e)) == else_if_arms(e),
    decreases e,
{
    if let Expr::If { else_branch: Some(b), .. } = e {
        if let Expr::If { .. } = *b {
            lemma_else_if_chain(*b);
        } else if let Expr::Block { stmts } = *b {
            assert(block_tree(stmts) is Sequence);
        }
    }
}

/// A `for pat in iter` loop maps to a `Loop` whose condition is exactly
/// `for <pat> in <iter>`, and a `while` loop to one whose condition is its
/// condition text unchanged.
pub proof fn lemma_loop_conditions(e: Expr)
    requires
        e is ForLoop || e is While,
    ensures
        expr_tree(e) is Loop,
        e matches Expr::ForLoop { pat, iter, .. } ==> expr_tree(e)->Loop_condition == for_condition(
            pat@,
            iter@,
        ),
        e matches Expr::ForLoop { pat, iter, .. } ==> for_condition(pat@, iter@) == "for "@ + pat@
            + " in "@ + iter@,
        e matches Expr::While { cond, .. } ==> expr_tree(e)->Loop_condition == cond@,
{
}

/// An expression statement that is not a branch, a loop or a block maps to
/// exactly one `Command` whose label is the expression's text; so do `let`
/// bindings and macro invocations.
pub proof fn lemma_fallback_command(s: Stmt)
    requires
        s matches Stmt::Expr { expr: Expr::Other { .. } } || s is Local || s is Macro,
    ensures
        stmt_tree(s) is Command,
        s matches Stmt::Expr { expr: Expr::Other { text } } ==> stmt_tree(s)->Command_label == text@,
        s matches Stmt::Local { text } ==> stmt_tree(s)->Command_label == text@,
        s matches Stmt::Macro { text } ==> stmt_tree(s)->Command_label == text@,
{
}

} // verus!
