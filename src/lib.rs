//! Locking a process's whole address space into physical memory.
//!
//! The operating system call itself is made by the caller; this library
//! holds the decisions around it: which flags to ask for, how a failure
//! code is classified, and when to fall back to a weaker request.

pub mod constants;
pub mod error;
pub mod invoker;
pub mod policy;

pub use constants::LockConstants;
pub use error::Error;
pub use invoker::{error_from_errno, mlockall_result};
pub use policy::{after_attempt, begin, Attempt, LockStep};
