//! Error types surfaced to callers: connection-time errors and
//! evaluation-time errors.

use vstd::prelude::*;

verus! {

/// Declares `std::io::Error` so that errors can carry the underlying I/O
/// failure as an opaque value; nothing is assumed about it.
#[verifier::external_type_specification]
#[verifier::external_body]
pub struct ExIoError(std::io::Error);

/// Error during establishing a connection to the server.
#[derive(Debug)]
pub enum ConnError {
    /// No display specified and no value for the DISPLAY variable was
    /// available.
    NoDisplay,
    /// No value for the LOGNAME variable was available.
    ///
    /// This matters when connecting to the Unix socket, since without the
    /// login name the socket path cannot be determined.
    NoLogname,
    /// An I/O error while establishing the connection (for example the
    /// socket at the given path does not exist), together with the path
    /// that was tried.
    Io(String, std::io::Error),
    /// The display names a screen number that the windowing server does
    /// not have.
    BadScreen(i32),
    /// No compatible server was found on the display: the well-known
    /// discovery property is absent or malformed.
    ServerNotFound,
    /// An error reported by the windowing-system protocol stack, as a
    /// rendered message.
    X11(String),
}

/// Error while sending a form for evaluation.
#[derive(Debug)]
pub enum EvalError {
    /// Got a response of total length zero to a synchronous request.
    ///
    /// This is different from the response payload being empty: an empty
    /// payload is a valid response and is not an error.
    NoResponse,
    /// The response is too large to address on this platform.  The value
    /// is the payload length the server announced.
    ResponseTooLarge(u64),
    /// An I/O error during communication with the server.
    Io(std::io::Error),
    /// The response property on the portal window has an unexpected type
    /// or bit-format, which indicates a protocol mismatch.
    BadResponse {
        /// The portal window the response was read from.
        window: u32,
        /// The atom naming the property holding the response.
        atom: u32,
        /// The actual type (an atom) of the response property.
        typ: u32,
        /// The actual bit-format of the response property.
        format: u8,
    },
    /// An error reported by the windowing-system protocol stack, as a
    /// rendered message.
    X11(String),
}

} // verus!
