//! Client-side protocol for talking to a long-running window-manager
//! process that evaluates textual commands ("forms").
//!
//! The crate implements the two transports the server understands:
//!
//! * a length-prefixed binary framing over a byte stream (normally a Unix
//!   socket), in [`codec`] and [`socket`], and
//! * a fallback protocol built on windowing-system property-change
//!   notifications, in [`property`].
//!
//! Both transports are written as explicit protocol state machines over
//! plain values: the caller performs the reads, writes and windowing calls
//! and feeds the results back in, so the framing rules, the response
//! parsing and the polling decisions are all verified, independently of
//! whether the caller blocks on I/O or suspends at I/O boundaries.
//! Display-name canonicalization, used to locate the server's socket,
//! lives in [`display`].

use vstd::prelude::*;

pub mod codec;
pub mod display;
pub mod error;
pub mod property;
pub mod socket;

pub use error::ConnError;
pub use error::EvalError;

verus! {

/// Result of a form evaluation.
///
/// If the server evaluated the form successfully, the response payload is
/// carried in the `Ok` variant.  If the server failed to evaluate it (for
/// example on a syntax error), the error message is carried in the `Err`
/// variant.  Both are distinct from transport errors, which are reported
/// as [`EvalError`] instead.
pub type EvalResponse = Result<Vec<u8>, Vec<u8>>;

} // verus!
