//! Core logic of an external-tool search adapter.
//!
//! The library builds the invocation for a line-oriented search tool,
//! decides, line by line, which result paths are handed to a resolver and
//! which resolved descriptors are forwarded to the consumer, and models the
//! settings that the surrounding application exposes to its scripting layer.
//! The process I/O itself (spawning the tool, reading its pipe, the result
//! channel) lives outside the library and drives the decision machine
//! defined here.

pub mod line;
pub mod pump;
pub mod rg;
pub mod runtime;
pub mod trace;
