//! An interactive, terminal-driven lesson runner: a catalog of chapters and
//! exercises, a session tracking the learner's position and code buffer,
//! navigation over the catalog, a command parser, and the decision logic of
//! the compile-run-validate pipeline. All input/output stays outside this
//! library; the functions here are pure state transitions with contracts.

pub mod catalog;
pub mod commands;
pub mod pipeline;
pub mod session;
pub mod text;
pub mod validate;
