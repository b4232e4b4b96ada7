//! The byte-stream (socket) transport, as a protocol state machine.
//!
//! One request/response exchange is an [`Exchange`] value.  The caller
//! owns the actual stream and performs the I/O: it writes the frame that
//! [`Exchange::begin`] hands out, then follows the [`Step`]s the machine
//! returns, reading exactly the requested number of bytes and feeding
//! them back with [`Exchange::received`].  Because the machine itself
//! never touches the stream, a thread that blocks on reads and a
//! cooperative task that suspends at I/O boundaries drive the very same
//! protocol logic and produce byte-identical frames.

use vstd::prelude::*;

use crate::codec;
use crate::error::EvalError;

verus! {

/// The states of one request/response exchange.
pub enum Exchange {
    /// The request frame is being written to the stream.
    AwaitWrite { is_async: bool },
    /// The 8-byte total-length header of the response is being read.
    AwaitHeader,
    /// The status byte is being read; `data_len` payload bytes follow it.
    AwaitStatus { data_len: usize },
    /// The payload is being read.
    AwaitPayload { status: u8, data_len: usize },
    /// The exchange is over; no further I/O belongs to it.
    Complete,
}

/// What the caller must do next to drive an [`Exchange`].
pub enum Step {
    /// Read exactly this many bytes from the stream and hand them to
    /// [`Exchange::received`].
    Read(usize),
    /// The exchange is finished with this outcome.
    Done(Result<crate::EvalResponse, EvalError>),
}

/// The transition taken when the requested bytes have been read.
/// After the header: a total length of zero is an absent response, a
/// payload length the platform cannot address is too large, and anything
/// else asks for the status byte.  After the status byte: the payload is
/// asked for.  After the payload: the status byte decides between
/// success and failure, with the payload kept byte for byte.
pub open spec fn spec_received(state: Exchange, bytes: Vec<u8>) -> (Exchange, Step)
    recommends
        state is AwaitHeader || state is AwaitStatus || state is AwaitPayload,
{
    match state {
        Exchange::AwaitHeader => {
            let res_len = vstd::bytes::spec_u64_from_le_bytes(bytes@);
            if res_len == 0 {
                (Exchange::Complete, Step::Done(Err(EvalError::NoResponse)))
            } else if res_len - 1 > usize::MAX {
                (
                    Exchange::Complete,
                    Step::Done(Err(EvalError::ResponseTooLarge((res_len - 1) as u64))),
                )
            } else {
                (
                    Exchange::AwaitStatus { data_len: (res_len - 1) as usize },
                    Step::Read(1),
                )
            }
        },
        Exchange::AwaitStatus { data_len } => {
            (
                Exchange::AwaitPayload { status: bytes@[0], data_len },
                Step::Read(data_len),
            )
        },
        Exchange::AwaitPayload { status, data_len } => {
            if status == 1 {
                (Exchange::Complete, Step::Done(Ok(Ok(bytes))))
            } else {
                (Exchange::Complete, Step::Done(Ok(Err(bytes))))
            }
        },
        _ => (state, Step::Read(0)),
    }
}

impl Exchange {
    /// Starts an exchange for the given form: returns the machine and the
    /// request frame the caller must write to the stream.
    pub fn begin(form: &[u8], is_async: bool) -> (r: (Exchange, Vec<u8>))
        ensures
            r.0 == (Exchange::AwaitWrite { is_async }),
            r.1@ == codec::spec_encode_request(form@, is_async),
    {
        (Exchange::AwaitWrite { is_async }, codec::encode_request(form, is_async))
    }

    /// The caller reports that the whole request frame has been written.
    ///
    /// Law: a fire-and-forget exchange completes here, yielding the empty
    /// success response without ever asking for a read; a synchronous
    /// exchange asks for the 8-byte response header.
    pub fn written(self) -> (r: (Exchange, Step))
        requires
            self is AwaitWrite,
        ensures
            self->AwaitWrite_is_async ==> r.0 is Complete && (r.1 matches Step::Done(Ok(Ok(d)))
                && d@ == Seq::<u8>::empty()),
            !self->AwaitWrite_is_async ==> r == (Exchange::AwaitHeader, Step::Read(8usize)),
    {
        let is_async = match self {
            Exchange::AwaitWrite { is_async } => is_async,
            _ => false,
        };
        if is_async {
            (Exchange::Complete, Step::Done(Ok(Ok(Vec::new()))))
        } else {
            (Exchange::AwaitHeader, Step::Read(8))
        }
    }

    /// The caller hands over the bytes the last [`Step::Read`] asked for.
    pub fn received(self, bytes: Vec<u8>) -> (r: (Exchange, Step))
        requires
            self is AwaitHeader || self is AwaitStatus || self is AwaitPayload,
            self is AwaitHeader ==> bytes@.len() == 8,
            self is AwaitStatus ==> bytes@.len() == 1,
            self matches Exchange::AwaitPayload { data_len, .. } ==> bytes@.len() == data_len,
        ensures
            r == spec_received(self, bytes),
    {
        match self {
            Exchange::AwaitHeader => {
                let res_len = vstd::bytes::u64_from_le_bytes(bytes.as_slice());
                match codec::response_data_len(res_len) {
                    Err(err) => (Exchange::Complete, Step::Done(Err(err))),
                    Ok(data_len) => (Exchange::AwaitStatus { data_len }, Step::Read(1)),
                }
            },
            Exchange::AwaitStatus { data_len } => {
                let status = *vstd::slice::slice_index_get(bytes.as_slice(), 0);
                (Exchange::AwaitPayload { status, data_len }, Step::Read(data_len))
            },
            Exchange::AwaitPayload { status, data_len: _ } => {
                if status == 1 {
                    (Exchange::Complete, Step::Done(Ok(Ok(bytes))))
                } else {
                    (Exchange::Complete, Step::Done(Ok(Err(bytes))))
                }
            },
            _ => (self, Step::Read(0)),
        }
    }
}

/// Law: a response whose 8-byte header decodes to total length zero
/// always ends the exchange with `NoResponse`; it never yields a success
/// or failure with a made-up payload.
pub proof fn lemma_zero_length_is_no_response(header: Vec<u8>)
    requires
        header@.len() == 8,
        vstd::bytes::spec_u64_from_le_bytes(header@) == 0,
    ensures
        spec_received(Exchange::AwaitHeader, header) == (
            Exchange::Complete,
            Step::Done(Err::<crate::EvalResponse, EvalError>(EvalError::NoResponse)),
        ),
{
}

/// Law: status byte `1` always maps the exchange's outcome to success and
/// any other status byte to failure, with the payload preserved byte for
/// byte either way.
pub proof fn lemma_status_byte_decides(status: u8, data_len: usize, payload: Vec<u8>)
    requires
        payload@.len() == data_len,
    ensures
        ({
            let (state, step) = spec_received(
                Exchange::AwaitPayload { status, data_len },
                payload,
            );
            &&& state is Complete
            &&& status == 1 ==> step == Step::Done(Ok::<crate::EvalResponse, EvalError>(
                Ok(payload),
            ))
            &&& status != 1 ==> step == Step::Done(Ok::<crate::EvalResponse, EvalError>(
                Err(payload),
            ))
        }),
{
}

/// Law: driving a synchronous exchange over a well-formed response
/// frame — a header announcing one status byte plus the payload, then
/// that status byte, then the payload — reads exactly those three
/// pieces and completes with the response they encode.
pub proof fn lemma_exchange_decodes_response(header: Vec<u8>, status: Vec<u8>, payload: Vec<u8>)
    requires
        header@.len() == 8,
        status@.len() == 1,
        vstd::bytes::spec_u64_from_le_bytes(header@) == payload@.len() + 1,
        payload@.len() + 1 <= u64::MAX,
    ensures
        ({
            let (s1, step1) = spec_received(Exchange::AwaitHeader, header);
            let (s2, step2) = spec_received(s1, status);
            let (s3, step3) = spec_received(s2, payload);
            &&& step1 == Step::Read(1usize)
            &&& step2 == Step::Read(payload@.len() as usize)
            &&& s3 is Complete
            &&& step3 matches Step::Done(Ok(resp)) && codec::view_response(resp)
                == codec::spec_eval_response(status@[0], payload@)
        }),
{
    broadcast use vstd::std_specs::vec::axiom_spec_len;

    assert(vstd::std_specs::vec::spec_vec_len(&payload) == payload@.len());
}

/// A connection to the server over a caller-supplied asynchronous byte
/// stream.
///
/// The stream type is opaque here: the caller owns it and performs the
/// actual reads and writes, driving an [`Exchange`] for every request, so
/// the wire behaviour is the one verified above regardless of the
/// stream's nature.
pub struct AsyncClient<S>(pub S);

impl<S> AsyncClient<S> {
    /// Wraps an already-connected stream.
    pub fn new(socket: S) -> (r: Self)
        ensures
            r == AsyncClient(socket),
    {
        AsyncClient(socket)
    }
}

} // verus!
