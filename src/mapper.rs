//! Maps function definitions onto PAD nodes.
use crate::pad::{trees, PadNode, PadTree};
use crate::syntax::{Expr, FnDef, Item, Stmt};
use vstd::prelude::*;

verus! {

/// `text` with every `" . "` (a member access as the printer spaces it)
/// collapsed to `"."`, matches taken left to right without overlap.
pub open spec fn collapse_member_access(text: Seq<char>) -> Seq<char>
    decreases text.len(),
{
    if text.len() < 3 {
        text
    } else if text[0] == ' ' && text[1] == '.' && text[2] == ' ' {
        seq!['.'] + collapse_member_access(text.subrange(3, text.len() as int))
    } else {
        seq![text[0]] + collapse_member_access(text.subrange(1, text.len() as int))
    }
}

/// The label of the command that stands for an item declared in a block.
pub open spec fn inner_item_label() -> Seq<char> {
    "Inner item not supported"@
}

/// The label of the block that stands for a function named `name`.
pub open spec fn fn_label(name: Seq<char>) -> Seq<char> {
    "fn "@ + name + "()"@
}

/// The condition shown for `for pat in iter`.
pub open spec fn for_condition(pat: Seq<char>, iter: Seq<char>) -> Seq<char> {
    "for "@ + pat + " in "@ + iter
}

/// The diagram of a block: a sequence of one node per statement.
pub open spec fn block_tree(stmts: Vec<Stmt>) -> PadTree
    decreases stmts,
{
    PadTree::Sequence {
        children: Seq::new(
            stmts@.len(),
            |i: int|
                if 0 <= i < stmts@.len() {
                    stmt_tree(stmts@[i])
                } else {
                    PadTree::Sequence { children: Seq::empty() }
                },
        ),
    }
}

/// The diagram of a statement.
pub open spec fn stmt_tree(stmt: Stmt) -> PadTree
    decreases stmt,
{
    match stmt {
        Stmt::Local { text } => PadTree::Command { label: text@ },
        Stmt::Item => PadTree::Command { label: inner_item_label() },
        Stmt::Expr { expr } => expr_tree(expr),
        Stmt::Macro { text } => PadTree::Command { label: text@ },
    }
}

/// The diagram of an expression statement.
pub open spec fn expr_tree(expr: Expr) -> PadTree
    decreases expr,
{
    match expr {
        Expr::If { cond, then_branch, else_branch } => PadTree::If {
            condition: collapse_member_access(cond@),
            then_block: Box::new(block_tree(then_branch)),
            else_block: match else_branch {
                Some(e) => Some(Box::new(expr_tree(*e))),
                None => None,
            },
        },
        Expr::While { cond, body } => PadTree::Loop {
            condition: cond@,
            body: Box::new(block_tree(body)),
        },
        Expr::ForLoop { pat, iter, body } => PadTree::Loop {
            condition: for_condition(pat@, iter@),
            body: Box::new(block_tree(body)),
        },
        Expr::Block { stmts } => block_tree(stmts),
        Expr::Other { text } => PadTree::Command { label: text@ },
    }
}

/// The diagram of a function: a labelled block around its body.
pub open spec fn fn_tree(f: FnDef) -> PadTree {
    PadTree::Block { label: fn_label(f.name@), children: seq![block_tree(f.body)] }
}

/// The function definitions among `items`, in source order.
pub open spec fn functions_of(items: Seq<Item>) -> Seq<FnDef>
    decreases items.len(),
{
    if items.len() == 0 {
        Seq::empty()
    } else {
        let rest = functions_of(items.subrange(0, items.len() - 1));
        match items[items.len() - 1] {
            Item::Fn { def } => rest.push(def),
            Item::Other => rest,
        }
    }
}

/// Collapses each spaced member access `" . "` of `text` to `"."`.
pub fn collapse_spaced_dots(text: &String) -> (r: String)
    ensures
        r@ == collapse_member_access(text@),
{
    let s = text.as_str();
    let n = s.unicode_len();
    let mut out = String::new();
    let mut i: usize = 0;
    assert(text@.subrange(0, n as int) =~= text@);
    assert(out@ =~= Seq::<char>::empty());
    while i < n
        invariant
            n == text@.len(),
            s@ == text@,
            i <= n,
            out@ + collapse_member_access(text@.subrange(i as int, n as int))
                == collapse_member_access(text@),
        decreases n - i,
    {
        let rest = Ghost(text@.subrange(i as int, n as int));
        if n - i < 3 {
            let tail = s.substring_char(i, n);
            assert(collapse_member_access(rest@) == rest@);
            assert(text@.subrange(n as int, n as int) =~= Seq::<char>::empty());
            out.append(tail);
            assert(out@ =~= out@ + collapse_member_access(text@.subrange(n as int, n as int)));
            i = n;
        } else if s.get_char(i) == ' ' && s.get_char(i + 1) == '.' && s.get_char(i + 2) == ' ' {
            assert(rest@.subrange(3, rest@.len() as int) =~= text@.subrange(i + 3, n as int));
            assert(collapse_member_access(rest@) == seq!['.'] + collapse_member_access(
                text@.subrange(i + 3, n as int),
            ));
            proof {
                reveal_strlit(".");
            }
            out.append(".");
            assert(out@ + collapse_member_access(text@.subrange(i + 3, n as int))
                =~= collapse_member_access(text@));
            i = i + 3;
        } else {
            let one = s.substring_char(i, i + 1);
            assert(rest@.subrange(1, rest@.len() as int) =~= text@.subrange(i + 1, n as int));
            assert(one@ =~= seq![rest@[0]]);
            assert(collapse_member_access(rest@) == seq![rest@[0]] + collapse_member_access(
                text@.subrange(i + 1, n as int),
            ));
            out.append(one);
            assert(out@ + collapse_member_access(text@.subrange(i + 1, n as int))
                =~= collapse_member_access(text@));
            i = i + 1;
        }
    }
    assert(text@.subrange(n as int, n as int) =~= Seq::<char>::empty());
    out
}

/// Maps a block onto a `Sequence` of one node per statement.
pub fn parse_block(stmts: &Vec<Stmt>) -> (r: PadNode)
    ensures
        r@ == block_tree(*stmts),
    decreases stmts,
{
    let mut children: Vec<PadNode> = Vec::new();
    let mut i: usize = 0;
    while i < stmts.len()
        invariant
            i <= stmts@.len(),
            children@.len() == i,
            forall|j: int| 0 <= j < i ==> #[trigger] children@[j].tree() == stmt_tree(stmts@[j]),
        decreases stmts@.len() - i,
    {
        let node = parse_stmt(&stmts[i]);
        children.push(node);
        i = i + 1;
    }
    let ghost cs = children;
    let r = PadNode::Sequence { children };
    proof {
        let c = trees(cs);
        assert(r@->Sequence_children == c);
        let d = block_tree(*stmts)->Sequence_children;
        assert(c.len() == children@.len());
        assert(d.len() == stmts@.len());
        assert forall|j: int| 0 <= j < children@.len() implies c[j] == d[j] by {
            assert(children@[j].tree() == stmt_tree(stmts@[j]));
        }
        assert(c =~= d);
    }
    r
}

/// Maps one statement onto a node.
pub fn parse_stmt(stmt: &Stmt) -> (r: PadNode)
    ensures
        r@ == stmt_tree(*stmt),
    decreases stmt,
{
    match stmt {
        Stmt::Local { text } => PadNode::Command { label: text.clone() },
        Stmt::Item => PadNode::Command { label: String::from_str("Inner item not supported") },
        Stmt::Expr { expr } => parse_expr(expr),
        Stmt::Macro { text } => PadNode::Command { label: text.clone() },
    }
}

/// Maps an expression statement onto a node: branches to `If`, loops to
/// `Loop`, a bare block to its `Sequence`, and anything else to a `Command`
/// holding its text.
pub fn parse_expr(expr: &Expr) -> (r: PadNode)
    ensures
        r@ == expr_tree(*expr),
    decreases expr,
{
    match expr {
        Expr::If { cond, then_branch, else_branch } => {
            let condition = collapse_spaced_dots(cond);
            let then_node = parse_block(then_branch);
            let else_node = match else_branch {
                Some(e) => Some(Box::new(parse_expr(e))),
                None => None,
            };
            PadNode::If { condition, then_block: Box::new(then_node), else_block: else_node }
        },
        Expr::While { cond, body } => {
            let body_node = parse_block(body);
            PadNode::Loop { condition: cond.clone(), body: Box::new(body_node) }
        },
        Expr::ForLoop { pat, iter, body } => {
            let mut condition = String::from_str("for ");
            condition.append(pat.as_str());
            condition.append(" in ");
            condition.append(iter.as_str());
            let body_node = parse_block(body);
            PadNode::Loop { condition, body: Box::new(body_node) }
        },
        Expr::Block { stmts } => parse_block(stmts),
        Expr::Other { text } => PadNode::Command { label: text.clone() },
    }
}

/// Maps a function definition onto a `Block` labelled `fn <name>()` whose one
/// child is the `Sequence` of its body.
pub fn parse_function(func: &FnDef) -> (r: PadNode)
    ensures
        r@ == fn_tree(*func),
{
    let mut label = String::from_str("fn ");
    label.append(func.name.as_str());
    label.append("()");
    let body = parse_block(&func.body);
    let children = vec![body];
    let ghost vec_body = children;
    let r = PadNode::Block { label, children };
    assert(r@ == fn_tree(*func)) by {
        let c = trees(vec_body);
        assert(r@->Block_children == c);
        assert(vec_body@ == seq![body]);
        assert(c.len() == 1);
        assert(c[0] == block_tree(func.body));
        assert(c =~= seq![block_tree(func.body)]);
    }
    r
}

/// The function definitions among `items`, in source order; every other kind
/// of item is passed over.
pub fn extract_functions(items: &Vec<Item>) -> (r: Vec<&FnDef>)
    ensures
        r@.len() == functions_of(items@).len(),
        forall|j: int| 0 <= j < r@.len() ==> *#[trigger] r@[j] == functions_of(items@)[j],
{
    let mut r: Vec<&FnDef> = Vec::new();
    let mut i: usize = 0;
    while i < items.len()
        invariant
            i <= items@.len(),
            r@.len() == functions_of(items@.subrange(0, i as int)).len(),
            forall|j: int|
                0 <= j < r@.len() ==> *#[trigger] r@[j] == functions_of(
                    items@.subrange(0, i as int),
                )[j],
        decreases items@.len() - i,
    {
        assert(items@.subrange(0, i + 1).subrange(0, i as int) =~= items@.subrange(0, i as int));
        match &items[i] {
            Item::Fn { def } => r.push(def),
            Item::Other => {},
        }
        i = i + 1;
    }
    assert(items@.subrange(0, items@.len() as int) =~= items@);
    r
}

} // verus!
