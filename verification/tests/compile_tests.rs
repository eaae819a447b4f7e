use chinstrap::ast::AstNode;
use chinstrap::config::Config;
use chinstrap::driver::{compile, CompileFatal, CompileStatus};
use chinstrap::emit::{classify, dispatch, render_expr, EmitError, NodeClass};
use chinstrap::stream::FileStream;

fn literal(text: &str) -> AstNode {
    AstNode {
        class: "Literal".to_string(),
        contents: Some(text.to_string()),
        children: Vec::new(),
    }
}

fn assign(rhs: AstNode) -> AstNode {
    AstNode { class: "Assign".to_string(), contents: None, children: vec![rhs] }
}

fn bare(class: &str) -> AstNode {
    AstNode { class: class.to_string(), contents: None, children: Vec::new() }
}

fn config(stem: &str, is_open_gl: bool) -> Config {
    let mut c = Config::empty();
    c.file_stem = stem.to_string();
    c.is_open_gl = is_open_gl;
    c
}

fn lines(v: Vec<&str>) -> Vec<String> {
    v.into_iter().map(String::from).collect()
}

#[test]
fn closed_dialect_wraps_the_assignment_in_a_pass() {
    let ast = vec![assign(literal("1.0"))];
    let out = compile(&ast, &config("Foo", false)).unwrap();
    assert_eq!(out.artifact_name, "Foo.shader");
    assert!(out.diagnostics.is_empty());
    assert_eq!(out.status(), CompileStatus::Success);
    let expected = lines(vec![
        "Shader \"Unlit/Foo\"",
        "{",
        "    Properties",
        "    {",
        "        ",
        "    }",
        "    ",
        "    SubShader",
        "    {",
        "        Pass",
        "        {",
        "            HLSLPROGRAM",
        "            #pragma vertex vert",
        "            #pragma fragment frag",
        "            ",
        "            result = 1.0;",
        "            float4 vert(float4 vertex : POSITION) : SV_POSITION",
        "            {",
        "                return UNITY_MATRIX_MVP * vertex;",
        "            }",
        "            fixed4 frag () : SV_Target",
        "            {",
        "                return _Color;",
        "            }",
        "            ENDHLSL",
        "        }",
        "    }",
        "}",
    ]);
    assert_eq!(out.stream.lines, expected);
    assert_eq!(out.stream.indent, 0);
}

#[test]
fn open_dialect_emits_two_standalone_stage_blocks() {
    let ast = vec![assign(literal("1.0"))];
    let out = compile(&ast, &config("Foo", true)).unwrap();
    assert_eq!(out.artifact_name, "Foo.shader");
    assert!(out.diagnostics.is_empty());
    let expected = lines(vec![
        "#pragma stage vertex",
        "void vert()",
        "{",
        "    vertex_result = 1.0;",
        "    gl_Position = vec4(vertex_result);",
        "}",
        "",
        "#pragma stage fragment",
        "void frag()",
        "{",
        "    frag_color = _Color;",
        "}",
    ]);
    assert_eq!(out.stream.lines, expected);
    for line in &out.stream.lines {
        assert!(!line.contains("Shader"));
        assert!(!line.contains("SubShader"));
    }
}

#[test]
fn unknown_class_fails_the_compile_but_keeps_the_boilerplate() {
    let ast = vec![bare("Frobnicate")];
    let out = compile(&ast, &config("Foo", false)).unwrap();
    assert_eq!(out.status(), CompileStatus::Failure(1));
    assert_eq!(
        out.diagnostics,
        vec![EmitError::UnknownClass("Frobnicate".to_string())]
    );
    // The artifact still holds the full closed-dialect boilerplate, with an
    // empty body between the stage pragmas and the vertex stub.
    assert_eq!(out.stream.lines.len(), 27);
    assert_eq!(out.stream.lines[0], "Shader \"Unlit/Foo\"");
    assert_eq!(out.stream.lines[14], "            ");
    assert_eq!(
        out.stream.lines[15],
        "            float4 vert(float4 vertex : POSITION) : SV_POSITION"
    );
    assert_eq!(out.stream.lines[26], "}");
}

#[test]
fn a_bad_node_does_not_block_its_siblings() {
    let ast = vec![literal("7"), bare("Frobnicate"), assign(literal("8"))];
    let out = compile(&ast, &config("Mix", false)).unwrap();
    assert_eq!(out.status(), CompileStatus::Failure(1));
    assert_eq!(
        out.diagnostics,
        vec![EmitError::UnknownClass("Frobnicate".to_string())]
    );
    assert!(out.stream.lines.contains(&"            7;".to_string()));
    assert!(out.stream.lines.contains(&"            result = 8;".to_string()));
}

#[test]
fn compiling_twice_gives_byte_identical_artifacts() {
    let ast = vec![assign(literal("1.0")), literal("2.5")];
    let cnfg = config("Twice", true);
    let first = compile(&ast, &cnfg).unwrap();
    let second = compile(&ast, &cnfg).unwrap();
    assert_eq!(first.stream.lines, second.stream.lines);
    assert_eq!(first.stream.render(), second.stream.render());
    assert_eq!(first.artifact_name, second.artifact_name);
}

#[test]
fn dialects_keep_the_statement_order() {
    let ast = vec![assign(literal("1.0")), bare("Frobnicate"), literal("2.5")];
    let closed = compile(&ast, &config("Order", false)).unwrap();
    let open = compile(&ast, &config("Order", true)).unwrap();
    assert_eq!(closed.diagnostics, open.diagnostics);
    // One statement per emittable node, in node order, in both dialects.
    assert!(closed.stream.lines.contains(&"            result = 1.0;".to_string()));
    assert!(closed.stream.lines.contains(&"            2.5;".to_string()));
    assert!(open.stream.lines.contains(&"    vertex_result = 1.0;".to_string()));
    assert!(open.stream.lines.contains(&"    2.5;".to_string()));
    let c1 = closed.stream.lines.iter().position(|l| l.trim_start() == "result = 1.0;").unwrap();
    let c2 = closed.stream.lines.iter().position(|l| l.trim_start() == "2.5;").unwrap();
    let o1 = open.stream.lines.iter().position(|l| l.trim_start() == "vertex_result = 1.0;").unwrap();
    let o2 = open.stream.lines.iter().position(|l| l.trim_start() == "2.5;").unwrap();
    assert!(c1 < c2);
    assert!(o1 < o2);
}

#[test]
fn empty_file_stem_is_fatal_before_any_artifact() {
    let ast = vec![assign(literal("1.0"))];
    let r = compile(&ast, &config("", false));
    assert_eq!(r.err(), Some(CompileFatal::ConfigMissing));
}

#[test]
fn empty_ast_compiles_to_bare_boilerplate() {
    let ast: Vec<AstNode> = Vec::new();
    let out = compile(&ast, &config("Empty", false)).unwrap();
    assert_eq!(out.status(), CompileStatus::Success);
    assert_eq!(out.stream.lines.len(), 27);
}

#[test]
fn assignment_without_exactly_one_child_is_invalid() {
    let no_child = AstNode {
        class: "Assign".to_string(),
        contents: None,
        children: Vec::new(),
    };
    let out = compile(&vec![no_child], &config("Bad", false)).unwrap();
    assert_eq!(
        out.diagnostics,
        vec![EmitError::InvalidNode(
            "assignment takes exactly one child".to_string()
        )]
    );

    let two_children = AstNode {
        class: "Assign".to_string(),
        contents: None,
        children: vec![literal("1"), literal("2")],
    };
    let out = compile(&vec![two_children], &config("Bad", false)).unwrap();
    assert_eq!(
        out.diagnostics,
        vec![EmitError::InvalidNode(
            "assignment takes exactly one child".to_string()
        )]
    );
}

#[test]
fn literal_without_contents_is_invalid() {
    let out = compile(&vec![bare("Literal")], &config("Bad", false)).unwrap();
    assert_eq!(
        out.diagnostics,
        vec![EmitError::InvalidNode("literal node has no contents".to_string())]
    );
}

#[test]
fn literal_with_children_is_invalid() {
    let node = AstNode {
        class: "Literal".to_string(),
        contents: Some("1".to_string()),
        children: vec![literal("2")],
    };
    let out = compile(&vec![node], &config("Bad", false)).unwrap();
    assert_eq!(
        out.diagnostics,
        vec![EmitError::InvalidNode("literal node takes no children".to_string())]
    );
}

#[test]
fn assignment_cannot_be_an_expression() {
    let nested = assign(assign(literal("1")));
    let out = compile(&vec![nested], &config("Bad", false)).unwrap();
    assert_eq!(
        out.diagnostics,
        vec![EmitError::InvalidNode(
            "assignment cannot stand as an expression".to_string()
        )]
    );
}

#[test]
fn unknown_rhs_class_is_reported_with_its_label() {
    let node = assign(bare("Mystery"));
    let out = compile(&vec![node], &config("Bad", false)).unwrap();
    assert_eq!(
        out.diagnostics,
        vec![EmitError::UnknownClass("Mystery".to_string())]
    );
}

#[test]
fn classify_resolves_only_registered_labels() {
    assert_eq!(classify(&"Assign".to_string()), Some(NodeClass::Assign));
    assert_eq!(classify(&"Literal".to_string()), Some(NodeClass::Literal));
    assert_eq!(classify(&"Frobnicate".to_string()), None);
    assert_eq!(classify(&"assign".to_string()), None);
}

#[test]
fn render_expr_passes_a_literal_payload_through() {
    assert_eq!(render_expr(&literal("42")), Ok("42".to_string()));
    assert_eq!(
        render_expr(&bare("Nope")),
        Err(EmitError::UnknownClass("Nope".to_string()))
    );
}

#[test]
fn dispatch_failure_leaves_the_stream_untouched() {
    let mut stream = FileStream::new();
    stream.push_indent();
    stream.write_line("before");
    let r = dispatch(&bare("Frobnicate"), &config("X", false), &mut stream);
    assert_eq!(r, Err(EmitError::UnknownClass("Frobnicate".to_string())));
    assert_eq!(stream.lines, vec!["    before".to_string()]);
    assert_eq!(stream.indent, 1);
}

#[test]
fn dispatch_writes_one_statement_at_the_current_depth() {
    let mut stream = FileStream::new();
    stream.push_indent();
    let r = dispatch(&assign(literal("9")), &config("X", false), &mut stream);
    assert_eq!(r, Ok(()));
    assert_eq!(stream.lines, vec!["    result = 9;".to_string()]);
    assert_eq!(stream.indent, 1);
}
