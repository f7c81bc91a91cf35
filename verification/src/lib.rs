//! Enclave-call (ECall) gateway and process-bootstrap core of a library OS
//! running inside a hardware-isolated enclave.
//!
//! The host invokes the enclave through a narrow gateway of three calls:
//! one-time initialization, creation of a new LibOS process, and execution of
//! a process's initial thread. Everything the host passes is untrusted and is
//! validated here before it reaches any trusted state. This crate holds the
//! decision logic of that gateway: argument marshaling, the entry-point path
//! policy, the once-only initialization state machine, and the translation of
//! every outcome (including contained faults) into a fixed-width status code.
//!
//! The platform work itself (dereferencing host pointers, spawning the
//! process, running the thread, syncing the filesystem) is performed by the
//! embedding runtime; this crate decides what to do and what to report.

pub mod errno;
pub mod gateway;
pub mod log_level;
pub mod marshal;
pub mod path_policy;
