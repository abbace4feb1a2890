//! The parts of a parsed source file that the diagram is built from.
//!
//! Fragments that the diagram shows as text (conditions, patterns, whole
//! statements) are held as the text that the parser's printer gave them.
use vstd::prelude::*;

verus! {

/// An expression in statement position.
pub enum Expr {
    /// `if cond { then_branch } else else_branch`; the else arm is either
    /// another `If` or a `Block`.
    If { cond: String, then_branch: Vec<Stmt>, else_branch: Option<Box<Expr>> },
    /// `while cond { body }`
    While { cond: String, body: Vec<Stmt> },
    /// `for pat in iter { body }`
    ForLoop { pat: String, iter: String, body: Vec<Stmt> },
    /// A bare `{ ... }` block used as an expression.
    Block { stmts: Vec<Stmt> },
    /// Any other expression, as printed source text.
    Other { text: String },
}

/// A statement of a block.
pub enum Stmt {
    /// A `let` binding, as printed source text.
    Local { text: String },
    /// An item (type, function, ...) declared inside a block.
    Item,
    /// An expression statement, with or without a trailing semicolon.
    Expr { expr: Expr },
    /// A macro invocation in statement position, as printed source text.
    Macro { text: String },
}

/// A function definition: its name and the statements of its body.
pub struct FnDef {
    pub name: String,
    pub body: Vec<Stmt>,
}

/// A top-level item of a source file.
pub enum Item {
    Fn { def: FnDef },
    /// Any item that is not a function definition.
    Other,
}

} // verus!
