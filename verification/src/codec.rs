//! Framing codec shared by the byte-stream transports.
//!
//! A request frame is a 9-byte header — one kind byte (`0` for a
//! synchronous request, `1` for fire-and-forget) followed by the payload
//! length as eight bytes in the byte order of the platforms the server
//! runs on (least significant byte first) — and then the payload itself.
//!
//! A response frame is an 8-byte total length `n`, then, when `n > 0`,
//! one status byte (`1` for success, anything else for failure) and
//! `n - 1` payload bytes.  A total length of zero means the response is
//! absent.

use vstd::prelude::*;

use crate::error::EvalError;

verus! {

/// The kind byte of a request frame.
pub open spec fn spec_request_kind(is_async: bool) -> u8 {
    if is_async {
        1u8
    } else {
        0u8
    }
}

/// The encoded request frame: kind byte, payload length, payload.
pub open spec fn spec_encode_request(form: Seq<u8>, is_async: bool) -> Seq<u8> {
    seq![spec_request_kind(is_async)] + vstd::bytes::spec_u64_to_le_bytes(form.len() as u64)
        + form
}

/// Parses a request frame back into its kind and payload.  Yields `None`
/// when the input is shorter than a header, the kind byte is unknown, or
/// the announced length does not match the payload.
pub open spec fn spec_decode_request(frame: Seq<u8>) -> Option<(bool, Seq<u8>)> {
    if frame.len() < 9 {
        None
    } else {
        let kind = frame[0];
        let announced = vstd::bytes::spec_u64_from_le_bytes(frame.subrange(1, 9));
        if kind <= 1 && frame.len() - 9 == announced {
            Some((kind == 1, frame.skip(9)))
        } else {
            None
        }
    }
}

/// The evaluation outcome encoded by a status byte and a payload: status
/// `1` is success, any other status is failure, and the payload is kept
/// byte for byte either way.
pub open spec fn spec_eval_response(status: u8, payload: Seq<u8>) -> Result<Seq<u8>, Seq<u8>> {
    if status == 1 {
        Ok(payload)
    } else {
        Err(payload)
    }
}

/// Encodes one request frame for the given form.
pub fn encode_request(form: &[u8], is_async: bool) -> (frame: Vec<u8>)
    ensures
        frame@ == spec_encode_request(form@, is_async),
{
    let req_type: u8 = if is_async {
        1
    } else {
        0
    };
    let mut frame: Vec<u8> = Vec::new();
    frame.push(req_type);
    let mut len_bytes = vstd::bytes::u64_to_le_bytes(form.len() as u64);
    frame.append(&mut len_bytes);
    frame.extend_from_slice(form);
    proof {
        assert(frame@ =~= spec_encode_request(form@, is_async));
    }
    frame
}

/// Parses one request frame, as the server does, back into the
/// fire-and-forget flag and the payload.
pub fn decode_request(frame: &[u8]) -> (r: Option<(bool, Vec<u8>)>)
    ensures
        r is Some <==> spec_decode_request(frame@) is Some,
        r matches Some(p) ==> spec_decode_request(frame@) == Some((p.0, p.1@)),
{
    let n = frame.len();
    if n < 9 {
        return None;
    }
    let kind = *vstd::slice::slice_index_get(frame, 0);
    if kind > 1 {
        return None;
    }
    let announced = vstd::bytes::u64_from_le_bytes(vstd::slice::slice_subrange(frame, 1, 9));
    if (n - 9) as u64 != announced || (announced as usize) != n - 9 {
        return None;
    }
    let payload = vstd::slice::slice_to_vec(vstd::slice::slice_subrange(frame, 9, n));
    Some((kind == 1, payload))
}

/// The decision taken on a response frame's total length: a total length
/// of zero means no response at all, and a payload length that the
/// platform cannot address cannot be read.
pub fn response_data_len(res_len: u64) -> (r: Result<usize, EvalError>)
    ensures
        res_len == 0 ==> r == Err::<usize, EvalError>(EvalError::NoResponse),
        res_len > 0 && res_len - 1 <= usize::MAX ==> r == Ok::<usize, EvalError>(
            (res_len - 1) as usize,
        ),
        res_len > 0 && res_len - 1 > usize::MAX ==> r == Err::<usize, EvalError>(
            EvalError::ResponseTooLarge((res_len - 1) as u64),
        ),
{
    if res_len == 0 {
        Err(EvalError::NoResponse)
    } else if res_len - 1 <= usize::MAX as u64 {
        Ok((res_len - 1) as usize)
    } else {
        Err(EvalError::ResponseTooLarge(res_len - 1))
    }
}

/// The mathematical value of an [`crate::EvalResponse`]: the payload
/// bytes under the same success or failure tag.
pub open spec fn view_response(r: crate::EvalResponse) -> Result<Seq<u8>, Seq<u8>> {
    match r {
        Ok(d) => Ok(d@),
        Err(d) => Err(d@),
    }
}

/// Combines the status byte and the payload into the evaluation outcome.
pub fn finish_response(status: u8, payload: Vec<u8>) -> (r: crate::EvalResponse)
    ensures
        view_response(r) == spec_eval_response(status, payload@),
{
    if status == 1 {
        Ok(payload)
    } else {
        Err(payload)
    }
}

/// Law: encoding a request and decoding it again round-trips the
/// fire-and-forget flag and the payload bytes exactly, for every form the
/// platform can hold.
pub proof fn lemma_request_round_trip(form: Seq<u8>, is_async: bool)
    requires
        form.len() <= u64::MAX,
    ensures
        spec_decode_request(spec_encode_request(form, is_async)) == Some((is_async, form)),
{
    vstd::bytes::lemma_auto_spec_u64_to_from_le_bytes();
    let frame = spec_encode_request(form, is_async);
    assert(frame.subrange(1, 9) =~= vstd::bytes::spec_u64_to_le_bytes(form.len() as u64));
    assert(frame.skip(9) =~= form);
}

} // verus!
