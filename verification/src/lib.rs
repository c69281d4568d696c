//! Typed access to Unix process primitives: decoding child-process wait
//! status words, resolving wait targets, issuing the blocking wait call,
//! and reading and writing process resource limits.

pub mod errno;
pub mod features;
pub mod sys;
pub mod unistd;
