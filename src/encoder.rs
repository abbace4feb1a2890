//! The wire format: each node as a JSON object whose `type` member comes
//! first and names the variant, followed by the variant's own fields in
//! declaration order. An absent `else_block` is left out, not written as null.
use crate::pad::{trees, PadNode, PadTree};
use vstd::prelude::*;

verus! {

/// The JSON string literal (quotes and escapes included) that stands for `text`.
pub uninterp spec fn json_string_of(text: Seq<char>) -> Seq<char>;

#[verifier::external_type_specification]
#[verifier::external_body]
pub struct ExJsonError(serde_json::Error);

/// Relies on `serde_json::to_string` applied to a `str`: it writes the string
/// as one JSON string literal. The `Serialize` impl of `str` only writes into
/// the `Vec<u8>` that `to_string` supplies, and that writer never fails, so the
/// result is always `Ok`.
#[verifier::external_body]
fn quote_json(text: &str) -> (r: Result<String, serde_json::Error>)
    ensures
        r is Ok,
        r matches Ok(q) ==> q@ == json_string_of(text@),
{
    serde_json::to_string(text)
}

/// Relies on the `Display` impl of `serde_json::Error` for a readable message.
#[verifier::external_body]
fn json_error_text(e: &serde_json::Error) -> (r: String) {
    e.to_string()
}

/// Why a node could not be encoded.
pub enum EncodeError {
    Serialization { message: String },
}

/// The encoding of `node`.
pub open spec fn json_text(node: PadTree) -> Seq<char>
    decreases node,
{
    match node {
        PadTree::Sequence { children } => "{\"type\":\"sequence\",\"children\":["@ + json_items(
            children,
        ) + "]}"@,
        PadTree::Block { label, children } => "{\"type\":\"block\",\"label\":"@ + json_string_of(
            label,
        ) + ",\"children\":["@ + json_items(children) + "]}"@,
        PadTree::If { condition, then_block, else_block } => "{\"type\":\"if\",\"condition\":"@
            + json_string_of(condition) + ",\"then_block\":"@ + json_text(*then_block) + match else_block {
            Some(e) => ",\"else_block\":"@ + json_text(*e),
            None => Seq::empty(),
        } + "}"@,
        PadTree::Loop { condition, body } => "{\"type\":\"loop\",\"condition\":"@ + json_string_of(
            condition,
        ) + ",\"body\":"@ + json_text(*body) + "}"@,
        PadTree::Command { label } => "{\"type\":\"command\",\"label\":"@ + json_string_of(label)
            + "}"@,
        PadTree::Error { message } => "{\"type\":\"error\",\"message\":"@ + json_string_of(message)
            + "}"@,
    }
}

/// The encodings of `nodes`, separated by commas.
pub open spec fn json_items(nodes: Seq<PadTree>) -> Seq<char>
    decreases nodes,
{
    if nodes.len() == 0 {
        Seq::empty()
    } else {
        let init = nodes.subrange(0, nodes.len() - 1);
        json_items(init) + (if init.len() == 0 {
            Seq::empty()
        } else {
            ","@
        }) + json_text(nodes[nodes.len() - 1])
    }
}

/// The payload returned when a node cannot be encoded.
pub open spec fn fallback_payload(message: Seq<char>) -> Seq<char> {
    "{\"type\": \"error\", \"message\": \"Serialization error: "@ + message + "\"}"@
}

fn write_quoted(text: &String, out: &mut String) -> (r: Result<(), EncodeError>)
    ensures
        r is Ok,
        final(out)@ == old(out)@ + json_string_of(text@),
{
    match quote_json(text.as_str()) {
        Ok(q) => {
            out.append(q.as_str());
            Ok(())
        },
        Err(e) => Err(EncodeError::Serialization { message: json_error_text(&e) }),
    }
}

fn write_items(nodes: &Vec<PadNode>, out: &mut String) -> (r: Result<(), EncodeError>)
    ensures
        r is Ok,
        final(out)@ == old(out)@ + json_items(trees(*nodes)),
    decreases nodes,
{
    let ghost all = trees(*nodes);
    let mut i: usize = 0;
    while i < nodes.len()
        invariant
            i <= nodes@.len(),
            all == trees(*nodes),
            out@ == old(out)@ + json_items(all.subrange(0, i as int)),
        decreases nodes@.len() - i,
    {
        let ghost before = out@;
        assert(all.subrange(0, i + 1).subrange(0, i as int) =~= all.subrange(0, i as int));
        if i > 0 {
            out.append(",");
        }
        let w = write_node(&nodes[i], out);
        if let Err(e) = w {
            return Err(e);
        }
        assert(all[i as int] == nodes@[i as int].tree());
        assert(out@ =~= old(out)@ + json_items(all.subrange(0, i + 1)));
        i = i + 1;
    }
    assert(all.subrange(0, nodes@.len() as int) =~= all);
    Ok(())
}

/// Appends the encoding of `node` to `out`.
pub fn write_node(node: &PadNode, out: &mut String) -> (r: Result<(), EncodeError>)
    ensures
        r is Ok,
        final(out)@ == old(out)@ + json_text(node@),
    decreases node,
{
    let ghost start = out@;
    let r = match node {
        PadNode::Sequence { children } => {
            out.append("{\"type\":\"sequence\",\"children\":[");
            let r = write_items(children, out);
            out.append("]}");
            r
        },
        PadNode::Block { label, children } => {
            out.append("{\"type\":\"block\",\"label\":");
            let r = write_quoted(label, out);
            out.append(",\"children\":[");
            let r2 = write_items(children, out);
            out.append("]}");
            if r.is_err() { r } else { r2 }
        },
        PadNode::If { condition, then_block, else_block } => {
            out.append("{\"type\":\"if\",\"condition\":");
            let r = write_quoted(condition, out);
            out.append(",\"then_block\":");
            let r2 = write_node(then_block, out);
            let ghost mid = out@;
            let r3 = match else_block {
                Some(e) => {
                    out.append(",\"else_block\":");
                    write_node(e, out)
                },
                None => Ok(()),
            };
            out.append("}");
            if r.is_err() { r } else if r2.is_err() { r2 } else { r3 }
        },
        PadNode::Loop { condition, body } => {
            out.append("{\"type\":\"loop\",\"condition\":");
            let r = write_quoted(condition, out);
            out.append(",\"body\":");
            let r2 = write_node(body, out);
            out.append("}");
            if r.is_err() { r } else { r2 }
        },
        PadNode::Command { label } => {
            out.append("{\"type\":\"command\",\"label\":");
            let r = write_quoted(label, out);
            out.append("}");
            r
        },
        PadNode::Error { message } => {
            out.append("{\"type\":\"error\",\"message\":");
            let r = write_quoted(message, out);
            out.append("}");
            r
        },
    };
    assert(out@ =~= start + json_text(node@));
    r
}

/// The encoding of `node`; should a string fail to encode, a hand-built error
/// payload that carries the failure's message.
pub fn encode(node: &PadNode) -> (r: String)
    ensures
        r@ == json_text(node@),
{
    let mut out = String::new();
    match write_node(node, &mut out) {
        Ok(()) => out,
        Err(EncodeError::Serialization { message }) => {
            let mut payload = String::from_str("{\"type\": \"error\", \"message\": \"Serialization error: ");
            payload.append(message.as_str());
            payload.append("\"}");
            payload
        },
    }
}

} // verus!
