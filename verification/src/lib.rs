//! Unified error type for a command-line profiling tool.
//!
//! Every fallible operation of the surrounding tool reports its failure
//! through one tagged union, [`error::Error`], so callers branch on a single
//! type no matter which subsystem failed.  Failures caught from underlying
//! libraries are wrapped together with the text they render to, modelled by
//! [`cause::Cause`].

pub mod cause;
pub mod error;
pub mod outside;
