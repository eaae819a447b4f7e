//! The abstract syntax tree the engine consumes.
//!
//! The tree is produced by an external lexer/parser collaborator; the engine
//! borrows it read-only for the duration of one compile and never mutates or
//! retains it. A node is a tagged record: a class label naming its kind, an
//! optional literal payload, and an ordered sequence of children whose order
//! is semantically significant.

use vstd::prelude::*;

verus! {

/// One node of the parsed tree: its class label, its optional literal
/// contents, and its ordered children (empty for leaves).
pub struct AstNode {
    pub class: String,
    pub contents: Option<String>,
    pub children: Vec<AstNode>,
}

} // verus!
