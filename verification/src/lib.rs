//! A small expression language evaluated in three stages: `parse` turns a
//! symbolic tree into a surface AST, `desugar` lowers the surface AST into a
//! minimal core AST, and `interp` evaluates the core AST to a runtime value.
//! Each stage is a pure function with its own error type, and each is
//! verified against a specification function that pins down its result
//! exactly.
pub mod desugarer;
pub mod interpreter;
pub mod parser;
pub mod pipeline;
