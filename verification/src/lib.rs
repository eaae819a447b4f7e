//! Chinstrap: a code generator that turns a parsed abstract syntax tree of a
//! small domain language into shader-program source text, in one of two
//! target dialects (a "closed" HLSL-style wrapped program, or an "open"
//! GLSL-style pair of standalone stage programs).
//!
//! The crate is the emission engine alone: it walks the node sequence,
//! dispatches each node's class to its emitter, manages nested-block
//! indentation, and assembles the dialect boilerplate around the emitted
//! body. Parsing source text into the tree, command-line handling and file
//! output are the host program's business; the engine works on plain values
//! and returns the artifact as a sequence of lines.

pub mod assemble;
pub mod ast;
pub mod config;
pub mod driver;
pub mod emit;
pub mod laws;
pub mod stream;
