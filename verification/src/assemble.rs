//! The boilerplate assembler: the single place that knows the wrapper
//! syntax of each dialect.
//!
//! The assembler runs once, after every top-level node has been dispatched
//! into the body stream, and builds the finished artifact: the body's lines
//! are spliced into the dialect's stage slot at the right depth, bracketed
//! by the declarations, pragmas and entry-point stubs the dialect requires.
//! The closed dialect wraps the body in a single named program declaration
//! with an empty properties block and one pass; the open dialect emits two
//! standalone stage programs, the body landing in the vertex stage, with no
//! wrapper keywords at all.

use vstd::prelude::*;

use crate::config::Config;
use crate::stream::{indent_prefix, lined, FileStream};

verus! {

/// The closed dialect's program declaration line for a given artifact stem.
pub open spec fn spec_shader_decl(stem: Seq<char>) -> Seq<char> {
    "Shader \"Unlit/"@ + stem + "\""@
}

/// The depth at which body statements sit inside the dialect's wrapper:
/// depth one in an open stage program, depth three inside the closed
/// program's pass.
pub open spec fn spec_body_depth(is_open_gl: bool) -> nat {
    if is_open_gl {
        1
    } else {
        3
    }
}

/// The closed dialect's wrapper lines above the body: the program
/// declaration, the empty properties block, and the pass opening with its
/// stage pragmas.
pub open spec fn spec_closed_head(stem: Seq<char>) -> Seq<Seq<char>> {
    seq![
        lined(0, spec_shader_decl(stem)),
        lined(0, "{"@),
        lined(1, "Properties"@),
        lined(1, "{"@),
        indent_prefix(2),
        lined(1, "}"@),
        indent_prefix(1),
        lined(1, "SubShader"@),
        lined(1, "{"@),
        lined(2, "Pass"@),
        lined(2, "{"@),
        lined(3, "HLSLPROGRAM"@),
        lined(3, "#pragma vertex vert"@),
        lined(3, "#pragma fragment frag"@),
        indent_prefix(3),
    ]
}

/// The closed dialect's wrapper lines below the body: the fixed
/// vertex-transform and fragment-output stubs, and the closing brackets of
/// the pass, the sub-program and the program.
pub open spec fn spec_closed_tail() -> Seq<Seq<char>> {
    seq![
        lined(3, "float4 vert(float4 vertex : POSITION) : SV_POSITION"@),
        lined(3, "{"@),
        lined(4, "return UNITY_MATRIX_MVP * vertex;"@),
        lined(3, "}"@),
        lined(3, "fixed4 frag () : SV_Target"@),
        lined(3, "{"@),
        lined(4, "return _Color;"@),
        lined(3, "}"@),
        lined(3, "ENDHLSL"@),
        lined(2, "}"@),
        lined(1, "}"@),
        lined(0, "}"@),
    ]
}

/// The open dialect's lines above the body: the vertex stage program's
/// pragma and opening.
pub open spec fn spec_open_head() -> Seq<Seq<char>> {
    seq![lined(0, "#pragma stage vertex"@), lined(0, "void vert()"@), lined(0, "{"@)]
}

/// The open dialect's lines below the body: the fixed vertex-transform
/// stub, the vertex program's closing, and the whole standalone fragment
/// stage program with its fixed output stub.
pub open spec fn spec_open_tail() -> Seq<Seq<char>> {
    seq![
        lined(1, "gl_Position = vec4(vertex_result);"@),
        lined(0, "}"@),
        indent_prefix(0),
        lined(0, "#pragma stage fragment"@),
        lined(0, "void frag()"@),
        lined(0, "{"@),
        lined(1, "frag_color = _Color;"@),
        lined(0, "}"@),
    ]
}

/// The finished artifact: the dialect's wrapper around the body, the body's
/// lines indented to the dialect's stage slot depth.
pub open spec fn spec_assemble(stem: Seq<char>, is_open_gl: bool, body: Seq<Seq<char>>) -> Seq<
    Seq<char>,
> {
    if is_open_gl {
        spec_open_head() + body.map_values(|l: Seq<char>| lined(1, l)) + spec_open_tail()
    } else {
        spec_closed_head(stem) + body.map_values(|l: Seq<char>| lined(3, l)) + spec_closed_tail()
    }
}

/// Builds the finished artifact for the configured dialect around the
/// already-emitted body. The result's depth is back to zero: every block
/// the wrapper opens is closed again.
pub fn assemble(cnfg: &Config, body: &FileStream) -> (out: FileStream)
    ensures
        out@.indent == 0,
        out@.lines == spec_assemble(cnfg.file_stem@, cnfg.is_open_gl, body@.lines),
{
    let mut out = FileStream::new();
    if cnfg.is_open_gl {
        out.write_line("#pragma stage vertex");
        out.base_declaration("void vert()");
        proof {
            assert(out@.lines =~= spec_open_head());
        }
        out.append_indented(body);
        out.write_line("gl_Position = vec4(vertex_result);");
        out.close_bracket();
        out.empty_line();
        out.write_line("#pragma stage fragment");
        out.base_declaration("void frag()");
        out.write_line("frag_color = _Color;");
        out.close_bracket();
        proof {
            assert(out@.lines =~= spec_open_head() + body@.lines.map_values(
                |l: Seq<char>| lined(1, l),
            ) + spec_open_tail());
        }
    } else {
        let mut decl = String::from_str("Shader \"Unlit/");
        decl.append(cnfg.file_stem.as_str());
        decl.append("\"");
        out.base_declaration(decl.as_str());
        out.base_declaration("Properties");
        out.empty_line();
        out.close_bracket();
        out.empty_line();
        out.base_declaration("SubShader");
        out.base_declaration("Pass");
        out.write_line("HLSLPROGRAM");
        out.write_line("#pragma vertex vert");
        out.write_line("#pragma fragment frag");
        out.empty_line();
        proof {
            assert(out@.lines =~= spec_closed_head(cnfg.file_stem@));
        }
        out.append_indented(body);
        out.base_declaration("float4 vert(float4 vertex : POSITION) : SV_POSITION");
        out.write_line("return UNITY_MATRIX_MVP * vertex;");
        out.close_bracket();
        out.base_declaration("fixed4 frag () : SV_Target");
        out.write_line("return _Color;");
        out.close_bracket();
        out.write_line("ENDHLSL");
        out.close_bracket();
        out.close_bracket();
        out.close_bracket();
        proof {
            assert(out@.lines =~= spec_closed_head(cnfg.file_stem@) + body@.lines.map_values(
                |l: Seq<char>| lined(3, l),
            ) + spec_closed_tail());
        }
    }
    out
}

} // verus!
