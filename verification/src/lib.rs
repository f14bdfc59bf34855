//! Taskwarrior for a caller that speaks in typed requests.
//!
//! A request is compiled into the argument vector that states it to
//! Taskwarrior, and what a run of Taskwarrior leaves behind is interpreted
//! into the result the caller sees. Nothing here starts a process: the
//! caller of this library runs the command line it is given and hands back
//! the outcome.
//!
//! - [`request`]: the requests, one type for each operation.
//! - [`compile`]: from a request to its argument vector, and the rules on
//!   project scoping that every argument vector obeys.
//! - [`invocation`]: the options that precede every argument vector.
//! - [`outcome`]: what a run left behind.
//! - [`interpret`]: from an outcome to a result.
//! - [`text`]: whitespace, words and trimming.

pub mod compile;
pub mod interpret;
pub mod invocation;
pub mod outcome;
pub mod request;
pub mod text;
