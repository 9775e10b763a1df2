//! An engine that runs chunks of Ruby in one mruby interpreter and hands
//! back the string the last expression produced.
//!
//! The engine decides; whoever holds the C library calls. A run and a
//! compilation are machines that ask for one call into mruby at a time and
//! take back what it gave, until they finish with a result.

pub mod compilation;
pub mod engine;
pub mod session;
pub mod text;

pub use compilation::{compile, Compilation, Report, Request};
pub use engine::{Chunk, Compiled, Context, Failure, Interpreter, Landing};
pub use session::{run, Action, Event, Run, Stage};
