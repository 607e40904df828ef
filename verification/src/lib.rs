//! Boundary encodings for a privileged call gate.
//!
//! This crate defines the wire representations used to pass optional values,
//! borrowed buffers, borrowed text and outcome codes between two mutually
//! distrusting execution contexts: a zero-sentinel optional encoding, a
//! non-zero-enforcing integer wrapper, pointer-plus-length buffer descriptors
//! with graduated validation, and a signed word that multiplexes a success
//! payload with a failure code.
//!
//! A sender constructs these encodings from trusted, in-hand data; a receiver
//! must run the corresponding validation entry point before treating incoming
//! bits as a value of the claimed type.

pub mod consts;
pub mod errors;
pub mod ffi;
pub mod fs;
pub mod input;
pub mod mem;
pub mod poll;
pub mod process;
pub mod sockets;
pub mod syscalls;
