//! Asynchronous single-shot object upload with a fork/poll completion
//! protocol.
//!
//! An upload request is validated and handed to a child process that performs
//! the network transfer and encodes its outcome in its exit code; the caller
//! polls the child's handle without blocking until a terminal status comes
//! back.  The modules here hold the verified core of that protocol: input
//! validation, the exit-code vocabulary, the interpretation of a non-blocking
//! wait, and the per-handle state machine.

pub mod outcome;
pub mod poll;
pub mod request;
pub mod session;
pub mod utf8;
