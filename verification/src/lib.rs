//! An evaluator for the UCG configuration language, with machine-checked contracts.
//!
//! The crate takes a parsed program and reduces it to a value. Every function
//! states what it returns as a mathematical function of its arguments, and those
//! statements are proved.
//!
//! - [`ast`] is the syntax tree that a parser hands in.
//! - [`ir`] is the value domain, with deep equality and the text of values.
//! - [`scope`] holds the bindings, the current value and the import stack of
//!   an expression.
//! - [`assets`] is the cache of imports and the session that the builders of
//!   one run share.
//! - [`loader`] is the snapshot of the file system that imports and includes
//!   are answered from, and [`requests`] lists the files that a program asks for.
//! - [`build`] is the evaluator. Its module `semantics` says what each form of
//!   the language means; the builder computes exactly that.
//! - [`convert`] holds the registry of decoders and the conversion to command
//!   line flags.
//! - [`error`] holds the errors and their printed form.
//! - [`laws`] states and proves what holds of all values and programs.
//! - [`bridge`] holds the calls into other crates, whose results are named and
//!   not proved.
//!
//! Evaluation has no effect on the world. Files come from a snapshot, the
//! environment from a list of variables taken when the builder is made, and
//! what a program would print is left as notices in the session. A float is
//! carried as its bit pattern: it can be compared and passed on, and arithmetic
//! on floats is an error. Evaluation nests to a depth that the caller gives and
//! fails beyond it, so that every program terminates.

pub mod text;
pub mod ast;
pub mod error;
pub mod ir;
pub mod scope;
pub mod assets;
pub mod loader;
pub mod requests;
pub mod bridge;
pub mod convert;
pub mod build;
pub mod laws;
