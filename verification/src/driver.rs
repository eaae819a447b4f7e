//! The compile driver: one pass over the top-level node sequence, then the
//! boilerplate.
//!
//! The driver dispatches each node in order into a body stream, records the
//! nodes that could not be emitted as diagnostics instead of stopping the
//! walk, and finally hands the body to the assembler. A single unrecognized
//! or malformed node never blocks its siblings: their lines are emitted all
//! the same, and the boilerplate is assembled unconditionally. The compile
//! succeeds exactly when the diagnostic list comes back empty.

use vstd::prelude::*;

use crate::assemble::{assemble, spec_assemble};
use crate::ast::AstNode;
use crate::config::Config;
use crate::emit::{dispatch, spec_stmt, EmitError, ErrModel};
use crate::stream::FileStream;

verus! {

/// The body lines that a node sequence emits, in node order: one statement
/// line per emittable node, nothing for a node that is skipped.
pub open spec fn spec_body(nodes: Seq<AstNode>, is_open_gl: bool) -> Seq<Seq<char>>
    decreases nodes.len(),
{
    if nodes.len() == 0 {
        Seq::<Seq<char>>::empty()
    } else {
        spec_body(nodes.drop_last(), is_open_gl) + match spec_stmt(nodes.last(), is_open_gl) {
            Ok(t) => seq![t],
            Err(_) => Seq::<Seq<char>>::empty(),
        }
    }
}

/// The diagnostics that a node sequence accumulates, in node order: one
/// entry per node that could not be emitted.
pub open spec fn spec_diags(nodes: Seq<AstNode>, is_open_gl: bool) -> Seq<ErrModel>
    decreases nodes.len(),
{
    if nodes.len() == 0 {
        Seq::<ErrModel>::empty()
    } else {
        spec_diags(nodes.drop_last(), is_open_gl) + match spec_stmt(nodes.last(), is_open_gl) {
            Ok(_) => Seq::<ErrModel>::empty(),
            Err(e) => seq![e],
        }
    }
}

/// A failure that stops the compile before any artifact exists. The
/// recoverable per-node conditions are not here: they become diagnostics.
#[derive(Clone, Copy, Debug, PartialEq, Eq)]
pub enum CompileFatal {
    /// A required configuration field is absent: the artifact stem is
    /// empty, so no artifact could be named.
    ConfigMissing,
}

/// How a finished compile went: clean, or with the number of nodes that
/// could not be emitted.
#[derive(Clone, Copy, Debug, PartialEq, Eq)]
pub enum CompileStatus {
    Success,
    Failure(usize),
}

/// What one compile produces: the artifact's file name, its lines, and the
/// diagnostics for the nodes that were skipped.
pub struct CompileOutput {
    /// `<stem>.shader` — the artifact the host should write the lines to.
    pub artifact_name: String,
    /// The finished artifact, one entry per line, indentation included.
    pub stream: FileStream,
    /// One entry per node that could not be emitted, in node order.
    pub diagnostics: Vec<EmitError>,
}

impl CompileOutput {
    /// The compile's status: success exactly when no diagnostic was
    /// recorded, failure carrying the diagnostic count otherwise.
    pub fn status(&self) -> (r: CompileStatus)
        ensures
            self.diagnostics@.len() == 0 ==> r == CompileStatus::Success,
            self.diagnostics@.len() > 0 ==> r == CompileStatus::Failure(
                self.diagnostics@.len() as usize,
            ),
    {
        if self.diagnostics.len() == 0 {
            CompileStatus::Success
        } else {
            CompileStatus::Failure(self.diagnostics.len())
        }
    }
}

/// Compiles a top-level node sequence under a configuration.
///
/// An empty artifact stem is the one fatal condition and is rejected before
/// anything is emitted. Otherwise every node is dispatched in order, the
/// ones that cannot be emitted are recorded as diagnostics without stopping
/// the walk, and the dialect boilerplate is assembled unconditionally
/// around the emitted body. The artifact's lines and diagnostics are pinned
/// exactly by the node sequence and the configuration; its indentation
/// depth is back to zero at the end of the stream.
pub fn compile(ast: &Vec<AstNode>, cnfg: &Config) -> (r: Result<CompileOutput, CompileFatal>)
    ensures
        r is Err <==> cnfg.file_stem@.len() == 0,
        r matches Err(e) ==> e == CompileFatal::ConfigMissing,
        r matches Ok(out) ==> {
            &&& out.artifact_name@ == cnfg.file_stem@ + ".shader"@
            &&& out.stream@.indent == 0
            &&& out.stream@.lines == spec_assemble(
                cnfg.file_stem@,
                cnfg.is_open_gl,
                spec_body(ast@, cnfg.is_open_gl),
            )
            &&& out.diagnostics@.map_values(|e: EmitError| e@) == spec_diags(
                ast@,
                cnfg.is_open_gl,
            )
        },
{
    if cnfg.file_stem.as_str().is_empty() {
        return Err(CompileFatal::ConfigMissing);
    }
    let mut body = FileStream::new();
    let mut diagnostics: Vec<EmitError> = Vec::new();
    let mut i: usize = 0;
    while i < ast.len()
        invariant
            i <= ast@.len(),
            body@.indent == 0,
            body@.lines == spec_body(ast@.take(i as int), cnfg.is_open_gl),
            diagnostics@.map_values(|e: EmitError| e@) == spec_diags(
                ast@.take(i as int),
                cnfg.is_open_gl,
            ),
        decreases ast@.len() - i,
    {
        let ghost prev = ast@.take(i as int);
        let ghost here = ast@.take(i + 1 as int);
        proof {
            assert(here.drop_last() =~= prev);
            assert(here.last() == ast@[i as int]);
        }
        match dispatch(&ast[i], cnfg, &mut body) {
            Ok(()) => {
                proof {
                    assert(body@.lines =~= spec_body(here, cnfg.is_open_gl));
                }
            },
            Err(e) => {
                diagnostics.push(e);
                proof {
                    assert(diagnostics@.map_values(|e: EmitError| e@) =~= spec_diags(
                        here,
                        cnfg.is_open_gl,
                    ));
                }
            },
        }
        i += 1;
    }
    proof {
        assert(ast@.take(ast@.len() as int) =~= ast@);
    }
    let mut artifact_name = cnfg.file_stem.clone();
    artifact_name.append(".shader");
    let stream = assemble(cnfg, &body);
    Ok(CompileOutput { artifact_name, stream, diagnostics })
}

} // verus!
