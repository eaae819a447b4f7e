//! The engine's laws: what holds of every compile, proved once and for all
//! over the spec functions that `compile`'s own contract is stated in.

use vstd::prelude::*;

use crate::assemble::spec_assemble;
use crate::ast::AstNode;
use crate::driver::{spec_body, spec_diags};
use crate::emit::{node_ok, spec_stmt, ErrModel};

verus! {

/// A node sequence made only of nodes with registered classes and
/// well-formed structure compiles with zero diagnostics. (That the finished
/// artifact's blocks are balanced — its indentation depth back to zero at
/// the end of the stream — is part of `compile`'s own contract, for every
/// input.)
pub proof fn lemma_clean_ast_compiles_clean(nodes: Seq<AstNode>, is_open_gl: bool)
    requires
        forall|i: int| 0 <= i < nodes.len() ==> node_ok(#[trigger] nodes[i], is_open_gl),
    ensures
        spec_diags(nodes, is_open_gl) == Seq::<ErrModel>::empty(),
    decreases nodes.len(),
{
    if nodes.len() == 0 {
    } else {
        assert(node_ok(nodes.last(), is_open_gl)) by {
            assert(nodes[nodes.len() - 1] == nodes.last());
        }
        lemma_clean_ast_compiles_clean(nodes.drop_last(), is_open_gl);
        assert(spec_diags(nodes, is_open_gl) =~= Seq::<ErrModel>::empty());
    }
}

/// No single bad node blocks the rest: the emitted body of a node sequence
/// is exactly the emitted body of its emittable nodes alone, so a node that
/// is skipped (unknown class or malformed shape) leaves every sibling's
/// output in the artifact, in order.
pub proof fn lemma_bad_nodes_do_not_block(nodes: Seq<AstNode>, is_open_gl: bool)
    ensures
        spec_body(nodes, is_open_gl) == spec_body(
            nodes.filter(|n: AstNode| node_ok(n, is_open_gl)),
            is_open_gl,
        ),
    decreases nodes.len(),
{
    reveal(Seq::filter);
    let pred = |n: AstNode| node_ok(n, is_open_gl);
    if nodes.len() == 0 {
    } else {
        let d = nodes.drop_last();
        let l = nodes.last();
        lemma_bad_nodes_do_not_block(d, is_open_gl);
        if pred(l) {
            let f = d.filter(pred).push(l);
            assert(nodes.filter(pred) == f);
            assert(f.drop_last() =~= d.filter(pred));
            assert(f.last() == l);
            assert(spec_body(nodes, is_open_gl) =~= spec_body(f, is_open_gl));
        } else {
            assert(nodes.filter(pred) == d.filter(pred));
            assert(spec_body(nodes, is_open_gl) =~= spec_body(d, is_open_gl));
        }
    }
}

/// Compiling the same node sequence and configuration twice produces
/// byte-identical artifact lines: the artifact is a function of the tree
/// and the configuration alone, whatever two distinct output paths the
/// host writes the copies to.
pub proof fn lemma_compile_idempotent(
    nodes: Seq<AstNode>,
    stem: Seq<char>,
    is_open_gl: bool,
    first: Seq<Seq<char>>,
    second: Seq<Seq<char>>,
)
    requires
        first == spec_assemble(stem, is_open_gl, spec_body(nodes, is_open_gl)),
        second == spec_assemble(stem, is_open_gl, spec_body(nodes, is_open_gl)),
    ensures
        first == second,
{
}

/// Whether a node is emittable, and the failure it is skipped with when it
/// is not, never depend on the dialect: the dialect only changes what an
/// emitter's dialect branch writes.
pub proof fn lemma_dialect_agnostic_failures(n: AstNode)
    ensures
        node_ok(n, true) == node_ok(n, false),
        !node_ok(n, true) ==> spec_stmt(n, true) == spec_stmt(n, false),
{
}

/// The emitted body of a node sequence is one statement per emittable node,
/// in node order: position `j` of the body is the statement of the `j`-th
/// emittable node.
pub proof fn lemma_body_is_per_node(nodes: Seq<AstNode>, is_open_gl: bool)
    ensures
        spec_body(nodes, is_open_gl) == nodes.filter(
            |n: AstNode| node_ok(n, is_open_gl),
        ).map_values(|n: AstNode| spec_stmt(n, is_open_gl)->Ok_0),
    decreases nodes.len(),
{
    reveal(Seq::filter);
    let pred = |n: AstNode| node_ok(n, is_open_gl);
    let text = |n: AstNode| spec_stmt(n, is_open_gl)->Ok_0;
    if nodes.len() == 0 {
        assert(spec_body(nodes, is_open_gl) =~= nodes.filter(pred).map_values(text));
    } else {
        let d = nodes.drop_last();
        let l = nodes.last();
        lemma_body_is_per_node(d, is_open_gl);
        if pred(l) {
            assert(nodes.filter(pred) == d.filter(pred).push(l));
            assert(nodes.filter(pred).map_values(text) =~= d.filter(pred).map_values(text).push(
                text(l),
            ));
            assert(spec_body(nodes, is_open_gl) =~= nodes.filter(pred).map_values(text));
        } else {
            assert(nodes.filter(pred) == d.filter(pred));
            assert(spec_body(nodes, is_open_gl) =~= nodes.filter(pred).map_values(text));
        }
    }
}

/// Dialect selection changes only wrapper text and per-emitter dialect
/// branch text, never which nodes are emitted or skipped, the diagnostics,
/// or the relative order of the emitted body statements: both dialects emit
/// one statement for the same `j`-th emittable node at body position `j`.
pub proof fn lemma_dialect_keeps_statement_order(nodes: Seq<AstNode>)
    ensures
        spec_diags(nodes, true) == spec_diags(nodes, false),
        nodes.filter(|n: AstNode| node_ok(n, true)) == nodes.filter(
            |n: AstNode| node_ok(n, false),
        ),
        spec_body(nodes, true) == nodes.filter(|n: AstNode| node_ok(n, true)).map_values(
            |n: AstNode| spec_stmt(n, true)->Ok_0,
        ),
        spec_body(nodes, false) == nodes.filter(|n: AstNode| node_ok(n, false)).map_values(
            |n: AstNode| spec_stmt(n, false)->Ok_0,
        ),
        spec_body(nodes, true).len() == spec_body(nodes, false).len(),
    decreases nodes.len(),
{
    reveal(Seq::filter);
    lemma_body_is_per_node(nodes, true);
    lemma_body_is_per_node(nodes, false);
    if nodes.len() == 0 {
        assert(spec_diags(nodes, true) =~= spec_diags(nodes, false));
        assert(nodes.filter(|n: AstNode| node_ok(n, true)) =~= nodes.filter(
            |n: AstNode| node_ok(n, false),
        ));
    } else {
        let d = nodes.drop_last();
        let l = nodes.last();
        lemma_dialect_keeps_statement_order(d);
        lemma_dialect_agnostic_failures(l);
        assert(spec_diags(nodes, true) =~= spec_diags(nodes, false));
        assert(nodes.filter(|n: AstNode| node_ok(n, true)) =~= nodes.filter(
            |n: AstNode| node_ok(n, false),
        ));
    }
}

} // verus!
