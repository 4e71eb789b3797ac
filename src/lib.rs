//! Turns a short monitor-control request into the argument list of one
//! invocation of a DDC/CI display utility.

pub mod code;
pub mod invocation;
