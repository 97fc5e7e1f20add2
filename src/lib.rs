//! Serialized access to a non-reentrant command engine that reports its
//! results through a logging callback.
//!
//! The library holds the decisions of the command gateway: the table of
//! return codes, the classification of log lines and the capture of a
//! command's printed output, the guard over the engine session, and the
//! composition and decoding of one command.
pub mod capture;
pub mod document;
pub mod gateway;
pub mod retcode;
pub mod session;
