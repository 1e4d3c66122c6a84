//! The decisions of the `frama-c-mcp` launcher, verified with Verus.
//!
//! The launcher either runs one `check` over a C file and reports it, or
//! serves the MCP protocol on stdio until it is told to stop. Everything it
//! decides along the way lives here: how a `check` invocation becomes a
//! request, when a finished check counts as a failure, in which order the
//! session starts, serves and drains its Frama-C processes, and how a
//! shutdown signal ends the wait. The I/O that carries those decisions out
//! belongs to the program around this library.

pub mod command;
pub mod payload;
pub mod session;
pub mod shutdown;
