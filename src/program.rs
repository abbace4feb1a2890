//! One whole source file: its function definitions wrapped in one `Sequence`,
//! or an `Error` when the file did not parse or holds no function.
use crate::encoder::{encode, json_text};
use crate::mapper::{extract_functions, fn_tree, functions_of, parse_function};
use crate::pad::{trees, PadNode, PadTree};
use crate::syntax::Item;
use vstd::prelude::*;

verus! {

/// The message of the root node when a file holds no function definition.
pub open spec fn no_function_message() -> Seq<char> {
    "No function found"@
}

/// The message of the root node when the parser rejected the file with `error`.
pub open spec fn parse_error_message(error: Seq<char>) -> Seq<char> {
    "Parse error: "@ + error
}

/// The root node for the outcome of parsing a file: its items, or the
/// parser's error message.
pub open spec fn program_tree(parsed: Result<Vec<Item>, String>) -> PadTree {
    match parsed {
        Ok(items) => {
            let fns = functions_of(items@);
            if fns.len() == 0 {
                PadTree::Error { message: no_function_message() }
            } else {
                PadTree::Sequence { children: fns.map_values(|f| fn_tree(f)) }
            }
        },
        Err(e) => PadTree::Error { message: parse_error_message(e@) },
    }
}

/// The root node for the outcome of parsing a file.
pub fn program_node(parsed: &Result<Vec<Item>, String>) -> (r: PadNode)
    ensures
        r@ == program_tree(*parsed),
{
    match parsed {
        Ok(items) => {
            let fns = extract_functions(items);
            if fns.len() == 0 {
                PadNode::Error { message: String::from_str("No function found") }
            } else {
                let ghost want = functions_of(items@);
                let mut nodes: Vec<PadNode> = Vec::new();
                let mut i: usize = 0;
                while i < fns.len()
                    invariant
                        i <= fns@.len(),
                        fns@.len() == want.len(),
                        forall|j: int| 0 <= j < fns@.len() ==> *#[trigger] fns@[j] == want[j],
                        nodes@.len() == i,
                        forall|j: int| 0 <= j < i ==> #[trigger] nodes@[j].tree() == fn_tree(want[j]),
                    decreases fns@.len() - i,
                {
                    let node = parse_function(fns[i]);
                    nodes.push(node);
                    i = i + 1;
                }
                let ghost ns = nodes;
                let r = PadNode::Sequence { children: nodes };
                proof {
                    let c = trees(ns);
                    assert(r@->Sequence_children == c);
                    assert(c.len() == want.len());
                    assert forall|j: int| 0 <= j < want.len() implies c[j] == fn_tree(want[j]) by {
                        assert(ns@[j].tree() == fn_tree(want[j]));
                    }
                    assert(c =~= want.map_values(|f| fn_tree(f)));
                }
                r
            }
        },
        Err(e) => {
            let mut message = String::from_str("Parse error: ");
            message.append(e.as_str());
            PadNode::Error { message }
        },
    }
}

/// The JSON text of the diagram for the outcome of parsing a file.
pub fn transform(parsed: &Result<Vec<Item>, String>) -> (r: String)
    ensures
        r@ == json_text(program_tree(*parsed)),
{
    let node = program_node(parsed);
    encode(&node)
}

} // verus!
