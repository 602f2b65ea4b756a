//! Translation of a subset of ECMAScript into C++20 source text that targets a
//! fixed runtime library of tagged values, closures and generators.
//!
//! A [`transpiler::Transpiler`] takes the syntax tree of a module, as
//! [`ast`] describes it, and writes one C++ translation unit: the includes
//! for its [`globals`], and a `main` that defines them and runs the lowered
//! statements. A tree with a construct that has no lowering is rejected with
//! an [`error::TranspileError`]; nothing is written for it.
//!
//! What is written is given by the functions of [`lowering`], [`shapes`] and
//! [`assembly`], which map a tree to text; the translator is proved to return
//! that text, or the failure that they name. [`laws`] and [`unsupported`]
//! state what holds of every translation.

pub mod assembly;
pub mod ast;
pub mod error;
pub mod generators;
pub mod globals;
pub mod includes;
pub mod laws;
pub mod lowering;
pub mod shapes;
pub mod text;
pub mod transpiler;
pub mod unsupported;
pub mod writer;
