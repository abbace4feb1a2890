//! The PAD node algebra: the tree that the diagram renderer draws.
use vstd::prelude::*;

verus! {

/// One node of a Problem Analysis Diagram.
#[derive(Debug, PartialEq, Eq)]
pub enum PadNode {
    /// Steps run one after the other, in source order.
    Sequence { children: Vec<PadNode> },
    /// A named unit of work (a function); its one child is a `Sequence`.
    Block { label: String, children: Vec<PadNode> },
    /// A two-way branch; `else_block` is absent when the source has no else.
    If { condition: String, then_block: Box<PadNode>, else_block: Option<Box<PadNode>> },
    /// A loop, pre-tested (`while`) or ranged (`for`).
    Loop { condition: String, body: Box<PadNode> },
    /// An atomic step.
    Command { label: String },
    /// A failure report.
    Error { message: String },
}

/// The mathematical value of a [`PadNode`]: the same tree over sequences.
pub enum PadTree {
    Sequence { children: Seq<PadTree> },
    Block { label: Seq<char>, children: Seq<PadTree> },
    If { condition: Seq<char>, then_block: Box<PadTree>, else_block: Option<Box<PadTree>> },
    Loop { condition: Seq<char>, body: Box<PadTree> },
    Command { label: Seq<char> },
    Error { message: Seq<char> },
}

/// The values of `nodes`, in order.
pub open spec fn trees(nodes: Vec<PadNode>) -> Seq<PadTree>
    decreases nodes,
{
    Seq::new(
        nodes@.len(),
        |i: int|
            if 0 <= i < nodes@.len() {
                nodes@[i].tree()
            } else {
                PadTree::Sequence { children: Seq::empty() }
            },
    )
}

impl PadNode {
    pub open spec fn tree(&self) -> PadTree
        decreases self,
    {
        match self {
            PadNode::Sequence { children } => PadTree::Sequence {
                children: trees(*children),
            },
            PadNode::Block { label, children } => PadTree::Block {
                label: label@,
                children: trees(*children),
            },
            PadNode::If { condition, then_block, else_block } => PadTree::If {
                condition: condition@,
                then_block: Box::new(then_block.tree()),
                else_block: match else_block {
                    Some(b) => Some(Box::new(b.tree())),
                    None => None,
                },
            },
            PadNode::Loop { condition, body } => PadTree::Loop {
                condition: condition@,
                body: Box::new(body.tree()),
            },
            PadNode::Command { label } => PadTree::Command { label: label@ },
            PadNode::Error { message } => PadTree::Error { message: message@ },
        }
    }
}

impl View for PadNode {
    type V = PadTree;

    open spec fn view(&self) -> PadTree {
        self.tree()
    }
}

} // verus!
