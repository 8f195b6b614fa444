//! A minimal layer for issuing Linux system calls on x86-64 without a
//! platform standard library.
//!
//! The crate holds the two pieces of that layer that are pure computation:
//!
//! * [`call`]: the interpretation of the value that the kernel leaves in
//!   `rax` when it hands control back, as a success payload or an error code;
//! * [`errno`]: the closed table of the kernel's error codes.
//!
//! The kernel transition itself is a single machine instruction and is issued
//! by the code that embeds this crate.

pub mod call;
pub mod errno;
