//! A verified front end around an embedded language runtime: configuration
//! resolution and lookup, session bootstrap planning, a read-eval-print
//! listener protocol, a facade over the runtime's read/compile/eval
//! primitives, and a derived status line.
//!
//! The runtime itself (an opaque environment handle with read, compile, eval,
//! write and load primitives) is an external collaborator: every decision this
//! library makes about it is a verified function from plain values (outcomes
//! the collaborator reported) to plain values (the next action to take), so a
//! thin unverified driver can run the loops.

pub mod config;
pub mod image;
pub mod json_data;
pub mod rebel;
pub mod status_line;
