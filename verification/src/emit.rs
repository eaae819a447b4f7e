//! The node emitter registry: dispatch from a node's class label to the
//! emitter that writes the node's text.
//!
//! The registry is a fixed, total case split over the supported classes plus
//! an explicit unhandled fallback, so exactly one emitter owns each label.
//! Every emitter writes exactly one statement line at the stream's current
//! depth; an emitter branches on the target dialect wherever the two
//! dialects spell the same construct differently. A node whose class is not
//! registered, or whose shape violates its class's structural contract, is
//! reported to the caller and leaves the stream untouched.

use vstd::prelude::*;

use crate::ast::AstNode;
use crate::config::Config;
use crate::stream::{lined, FileStream};

verus! {

/// The classes the registry has emitters for.
#[derive(Clone, Copy, Debug, PartialEq, Eq)]
pub enum NodeClass {
    /// Binds a right-hand expression result to the program's output slot.
    Assign,
    /// A literal payload, passed through as a computed value.
    Literal,
}

/// A recoverable per-node failure: the node is skipped and reported, and
/// the rest of the compile goes on.
#[derive(Clone, Debug, PartialEq, Eq)]
pub enum EmitError {
    /// No emitter is registered for the node's class label; carries the
    /// label that failed to resolve.
    UnknownClass(String),
    /// The node's shape violates its class's structural contract; carries
    /// the reason.
    InvalidNode(String),
}

/// The mathematical value of an `EmitError`: the same two cases over
/// character sequences.
pub enum ErrModel {
    UnknownClass(Seq<char>),
    InvalidNode(Seq<char>),
}

impl View for EmitError {
    type V = ErrModel;

    open spec fn view(&self) -> ErrModel {
        match self {
            EmitError::UnknownClass(s) => ErrModel::UnknownClass(s@),
            EmitError::InvalidNode(s) => ErrModel::InvalidNode(s@),
        }
    }
}

/// Which emitter a class label resolves to: the registry's mapping, with
/// `None` for every unregistered label.
pub open spec fn spec_classify(label: Seq<char>) -> Option<NodeClass> {
    if label == "Assign"@ {
        Some(NodeClass::Assign)
    } else if label == "Literal"@ {
        Some(NodeClass::Literal)
    } else {
        None
    }
}

/// The expression text a node evaluates to, or why it cannot stand as an
/// expression. Only a literal leaf is an expression: its payload is passed
/// through unchanged.
pub open spec fn spec_expr(node: AstNode) -> Result<Seq<char>, ErrModel> {
    match spec_classify(node.class@) {
        Some(NodeClass::Literal) => if node.children@.len() != 0 {
            Err(ErrModel::InvalidNode("literal node takes no children"@))
        } else {
            match node.contents {
                Some(c) => Ok(c@),
                None => Err(ErrModel::InvalidNode("literal node has no contents"@)),
            }
        },
        Some(NodeClass::Assign) => Err(
            ErrModel::InvalidNode("assignment cannot stand as an expression"@),
        ),
        None => Err(ErrModel::UnknownClass(node.class@)),
    }
}

/// The left-hand text of an emitted assignment. The open dialect qualifies
/// the bound slot with its stage (the body lands in the vertex stage
/// program); the closed dialect binds the single unified output.
pub open spec fn spec_assign_prefix(is_open_gl: bool) -> Seq<char> {
    if is_open_gl {
        "vertex_result = "@
    } else {
        "result = "@
    }
}

/// The one statement line a top-level node emits (without its indent
/// prefix), or the failure that makes the node be skipped.
pub open spec fn spec_stmt(node: AstNode, is_open_gl: bool) -> Result<Seq<char>, ErrModel> {
    match spec_classify(node.class@) {
        None => Err(ErrModel::UnknownClass(node.class@)),
        Some(NodeClass::Literal) => match spec_expr(node) {
            Ok(c) => Ok(c + ";"@),
            Err(e) => Err(e),
        },
        Some(NodeClass::Assign) => if node.children@.len() != 1 {
            Err(ErrModel::InvalidNode("assignment takes exactly one child"@))
        } else {
            match spec_expr(node.children@[0]) {
                Ok(c) => Ok(spec_assign_prefix(is_open_gl) + c + ";"@),
                Err(e) => Err(e),
            }
        },
    }
}

/// Whether a node is emittable: its class is registered and its shape meets
/// that class's structural contract.
pub open spec fn node_ok(node: AstNode, is_open_gl: bool) -> bool {
    spec_stmt(node, is_open_gl) is Ok
}

/// Resolves a class label in the registry.
pub fn classify(label: &String) -> (r: Option<NodeClass>)
    ensures
        r == spec_classify(label@),
{
    let assign: String = String::from_str("Assign");
    let literal: String = String::from_str("Literal");
    if *label == assign {
        Some(NodeClass::Assign)
    } else if *label == literal {
        Some(NodeClass::Literal)
    } else {
        None
    }
}

/// Renders a node as an expression, or reports why it cannot be one.
pub fn render_expr(node: &AstNode) -> (r: Result<String, EmitError>)
    ensures
        match spec_expr(*node) {
            Ok(t) => r matches Ok(s) && s@ == t,
            Err(e) => r matches Err(err) && err@ == e,
        },
{
    match classify(&node.class) {
        Some(NodeClass::Literal) => {
            if node.children.len() != 0 {
                Err(EmitError::InvalidNode(String::from_str("literal node takes no children")))
            } else {
                match &node.contents {
                    Some(c) => Ok(c.clone()),
                    None => Err(
                        EmitError::InvalidNode(String::from_str("literal node has no contents")),
                    ),
                }
            }
        },
        Some(NodeClass::Assign) => Err(
            EmitError::InvalidNode(String::from_str("assignment cannot stand as an expression")),
        ),
        None => Err(EmitError::UnknownClass(node.class.clone())),
    }
}

/// Dispatches one node to its emitter. On success the emitter has written
/// the node's single statement line at the stream's current depth; on
/// failure the stream is exactly as it was and the error says which of the
/// two recoverable conditions the node hit.
pub fn dispatch(node: &AstNode, cnfg: &Config, stream: &mut FileStream) -> (r: Result<
    (),
    EmitError,
>)
    ensures
        final(stream)@.indent == old(stream)@.indent,
        match spec_stmt(*node, cnfg.is_open_gl) {
            Ok(t) => r is Ok && final(stream)@.lines == old(stream)@.lines.push(
                lined(old(stream)@.indent, t),
            ),
            Err(e) => (r matches Err(err) && err@ == e) && final(stream)@ == old(stream)@,
        },
{
    match classify(&node.class) {
        None => Err(EmitError::UnknownClass(node.class.clone())),
        Some(NodeClass::Literal) => {
            match render_expr(node) {
                Ok(c) => {
                    let mut stmt = c;
                    stmt.append(";");
                    stream.write_line(stmt.as_str());
                    Ok(())
                },
                Err(e) => Err(e),
            }
        },
        Some(NodeClass::Assign) => {
            if node.children.len() != 1 {
                Err(EmitError::InvalidNode(String::from_str("assignment takes exactly one child")))
            } else {
                match render_expr(&node.children[0]) {
                    Ok(c) => {
                        let mut stmt = if cnfg.is_open_gl {
                            String::from_str("vertex_result = ")
                        } else {
                            String::from_str("result = ")
                        };
                        stmt.append(c.as_str());
                        stmt.append(";");
                        stream.write_line(stmt.as_str());
                        Ok(())
                    },
                    Err(e) => Err(e),
                }
            }
        },
    }
}

} // verus!
