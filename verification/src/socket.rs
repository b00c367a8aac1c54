//! The local-socket control protocol: requests, responses, their wire codec,
//! and the dispatch of one decoded request against the daemon state.
//!
//! Both directions carry a 16-bit big-endian length prefix followed by the
//! exact payload bytes. A request payload is a tag byte, with a boolean byte
//! after the `SetEnabled` tag. A response payload is a tag byte, with a boolean byte
//! after the `Status` tag, or a 16-bit length and that many UTF-8 bytes after
//! the `Error` tag.

use vstd::prelude::*;
use vstd::string::*;
use vstd::utf8::*;
use crate::daemon::{DaemonState, DaemonStateV};

verus! {

/// What a control client can ask of the daemon.
#[derive(Clone, Copy, Debug, PartialEq, Eq, Structural)]
pub enum Request {
    SetEnabled { enabled: bool },
    Toggle,
    Status,
}

/// What the daemon answers.
#[derive(Debug)]
pub enum Response {
    Done,
    Status { enabled: bool },
    Error { message: String },
}

/// The mathematical value of a [`Response`].
pub enum ResponseV {
    Done,
    Status { enabled: bool },
    Error { message: Seq<char> },
}

impl View for Response {
    type V = ResponseV;

    open spec fn view(&self) -> ResponseV {
        match self {
            Response::Done => ResponseV::Done,
            Response::Status { enabled } => ResponseV::Status { enabled: *enabled },
            Response::Error { message } => ResponseV::Error { message: message@ },
        }
    }
}

/// Why the socket boundary failed.
#[derive(Debug)]
pub enum SocketError {
    IoError(String),
}

/// The payload bytes of a request.
pub open spec fn req_bytes(q: Request) -> Seq<u8> {
    match q {
        Request::SetEnabled { enabled } => seq![0u8, if enabled { 1u8 } else { 0u8 }],
        Request::Toggle => seq![1u8],
        Request::Status => seq![2u8],
    }
}

/// The request a payload holds, or `None` when the bytes are malformed.
pub open spec fn parse_req(b: Seq<u8>) -> Option<Request> {
    if b.len() == 2 && b[0] == 0 && (b[1] == 0 || b[1] == 1) {
        Some(Request::SetEnabled { enabled: b[1] == 1 })
    } else if b.len() == 1 && b[0] == 1 {
        Some(Request::Toggle)
    } else if b.len() == 1 && b[0] == 2 {
        Some(Request::Status)
    } else {
        None
    }
}

/// The payload bytes of a response. An error message travels as a 16-bit
/// big-endian byte count followed by its UTF-8 bytes.
pub open spec fn resp_bytes(r: ResponseV) -> Seq<u8> {
    match r {
        ResponseV::Done => seq![0u8],
        ResponseV::Status { enabled } => seq![1u8, if enabled { 1u8 } else { 0u8 }],
        ResponseV::Error { message } => {
            let payload = encode_utf8(message);
            seq![
                2u8,
                (payload.len() as int / 256) as u8,
                (payload.len() as int % 256) as u8,
            ] + payload
        },
    }
}

/// The response a payload holds, or `None` when the bytes are malformed.
pub open spec fn parse_resp(b: Seq<u8>) -> Option<ResponseV> {
    if b.len() == 1 && b[0] == 0 {
        Some(ResponseV::Done)
    } else if b.len() == 2 && b[0] == 1 && (b[1] == 0 || b[1] == 1) {
        Some(ResponseV::Status { enabled: b[1] == 1 })
    } else if b.len() >= 3 && b[0] == 2 && (b[1] as int) * 256 + (b[2] as int) == b.len() - 3
        && valid_utf8(b.skip(3)) {
        Some(ResponseV::Error { message: decode_utf8(b.skip(3)) })
    } else {
        None
    }
}

/// A payload behind its 16-bit big-endian length prefix.
pub open spec fn frame_bytes(p: Seq<u8>) -> Seq<u8> {
    seq![(p.len() as int / 256) as u8, (p.len() as int % 256) as u8] + p
}

/// The payload a framed buffer holds, or `None` when the prefix disagrees
/// with what follows it.
pub open spec fn unframe_bytes(b: Seq<u8>) -> Option<Seq<u8>> {
    if b.len() >= 2 && (b[0] as int) * 256 + (b[1] as int) == b.len() - 2 {
        Some(b.skip(2))
    } else {
        None
    }
}

/// Encodes a request into its payload bytes.
pub fn encode_request(q: Request) -> (out: Vec<u8>)
    ensures
        out@ == req_bytes(q),
{
    let mut v: Vec<u8> = Vec::new();
    match q {
        Request::SetEnabled { enabled } => {
            v.push(0u8);
            v.push(if enabled { 1u8 } else { 0u8 });
        },
        Request::Toggle => {
            v.push(1u8);
        },
        Request::Status => {
            v.push(2u8);
        },
    }
    proof {
        assert(v@ =~= req_bytes(q));
    }
    v
}

/// Decodes a request payload; malformed bytes give `None`.
pub fn decode_request(bytes: &Vec<u8>) -> (r: Option<Request>)
    ensures
        r == parse_req(bytes@),
{
    if bytes.len() == 2 && bytes[0] == 0 && (bytes[1] == 0 || bytes[1] == 1) {
        Some(Request::SetEnabled { enabled: bytes[1] == 1 })
    } else if bytes.len() == 1 && bytes[0] == 1 {
        Some(Request::Toggle)
    } else if bytes.len() == 1 && bytes[0] == 2 {
        Some(Request::Status)
    } else {
        None
    }
}

/// Relies on `String::from_utf8`: the bytes become the string they encode
/// when they are valid UTF-8, and an error is reported otherwise.
#[verifier::external_body]
fn string_from_utf8(v: Vec<u8>) -> (r: Option<String>)
    ensures
        match r {
            Some(s) => valid_utf8(v@) && encode_utf8(s@) == v@,
            None => !valid_utf8(v@),
        },
{
    String::from_utf8(v).ok()
}

/// Encodes a response into its payload bytes. A 16-bit byte count carries the
/// error message, so the message must fit in it.
pub fn encode_response(r: &Response) -> (out: Vec<u8>)
    requires
        r@ matches ResponseV::Error { message } ==> encode_utf8(message).len() <= 0xFFFF,
    ensures
        out@ == resp_bytes(r@),
{
    let mut v: Vec<u8> = Vec::new();
    match r {
        Response::Done => {
            v.push(0u8);
        },
        Response::Status { enabled } => {
            v.push(1u8);
            v.push(if *enabled { 1u8 } else { 0u8 });
        },
        Response::Error { message } => {
            let mut payload = message.as_str().as_bytes_vec();
            let len = payload.len();
            v.push(2u8);
            v.push((len / 256) as u8);
            v.push((len % 256) as u8);
            v.append(&mut payload);
        },
    }
    proof {
        assert(v@ =~= resp_bytes(r@));
    }
    v
}

/// Decodes a response payload; malformed bytes give `None`.
pub fn decode_response(bytes: &Vec<u8>) -> (r: Option<Response>)
    ensures
        r matches Some(resp) ==> parse_resp(bytes@) == Some(resp@),
        r is None ==> parse_resp(bytes@) is None,
{
    if bytes.len() == 1 && bytes[0] == 0 {
        Some(Response::Done)
    } else if bytes.len() == 2 && bytes[0] == 1 && (bytes[1] == 0 || bytes[1] == 1) {
        Some(Response::Status { enabled: bytes[1] == 1 })
    } else if bytes.len() >= 3 && bytes[0] == 2 && (bytes[1] as usize) * 256 + (
    bytes[2] as usize) == bytes.len() - 3 {
        let mut tail: Vec<u8> = Vec::new();
        let mut i: usize = 3;
        while i < bytes.len()
            invariant
                3 <= i <= bytes@.len(),
                tail@ == bytes@.subrange(3, i as int),
            decreases bytes@.len() - i,
        {
            tail.push(bytes[i]);
            proof {
                assert(tail@ =~= bytes@.subrange(3, i + 1 as int));
            }
            i += 1;
        }
        proof {
            assert(tail@ =~= bytes@.skip(3));
        }
        match string_from_utf8(tail) {
            Some(message) => {
                proof {
                    encode_utf8_decode_utf8(message@);
                }
                Some(Response::Error { message })
            },
            None => None,
        }
    } else {
        None
    }
}

/// Wraps a payload in its 16-bit big-endian length prefix.
pub fn frame(payload: Vec<u8>) -> (out: Vec<u8>)
    requires
        payload@.len() <= 0xFFFF,
    ensures
        out@ == frame_bytes(payload@),
{
    let mut payload = payload;
    let len = payload.len();
    let mut out: Vec<u8> = Vec::new();
    out.push((len / 256) as u8);
    out.push((len % 256) as u8);
    out.append(&mut payload);
    proof {
        assert(out@ =~= frame_bytes(out@.skip(2)));
    }
    out
}

/// Unwraps a framed buffer; a prefix that disagrees with the bytes after it
/// gives `None`.
pub fn unframe(bytes: &Vec<u8>) -> (r: Option<Vec<u8>>)
    ensures
        r matches Some(p) ==> unframe_bytes(bytes@) == Some(p@),
        r is None ==> unframe_bytes(bytes@) is None,
{
    if bytes.len() >= 2 && (bytes[0] as usize) * 256 + (bytes[1] as usize) == bytes.len() - 2 {
        let mut tail: Vec<u8> = Vec::new();
        let mut i: usize = 2;
        while i < bytes.len()
            invariant
                2 <= i <= bytes@.len(),
                tail@ == bytes@.subrange(2, i as int),
            decreases bytes@.len() - i,
        {
            tail.push(bytes[i]);
            proof {
                assert(tail@ =~= bytes@.subrange(2, i + 1 as int));
            }
            i += 1;
        }
        proof {
            assert(tail@ =~= bytes@.skip(2));
        }
        Some(tail)
    } else {
        None
    }
}

/// What one control request does to the daemon state and what it answers:
/// `Set` writes the flag, `Toggle` inverts it, `Status` reads it; only
/// `Status` answers with data, the mutations answer `Ok`.
pub open spec fn spec_handle(s: DaemonStateV, q: Request) -> (DaemonStateV, ResponseV) {
    match q {
        Request::SetEnabled { enabled } => (s.with_enabled(enabled), ResponseV::Done),
        Request::Toggle => (s.toggled(), ResponseV::Done),
        Request::Status => (s, ResponseV::Status { enabled: s.enabled }),
    }
}

/// Performs one decoded control request against the daemon state.
pub fn handle_request(state: &mut DaemonState, q: Request) -> (r: Response)
    ensures
        (final(state)@, r@) == spec_handle(old(state)@, q),
{
    match q {
        Request::SetEnabled { enabled } => {
            state.set(enabled);
            Response::Done
        },
        Request::Toggle => {
            state.toggle();
            Response::Done
        },
        Request::Status => {
            let st = state.status();
            Response::Status { enabled: st.partymode }
        },
    }
}

/// Performs one raw request payload against the daemon state. Malformed
/// bytes answer an error and leave the state — in particular the enabled
/// flag and the held locks — exactly as it was.
pub fn handle_frame(state: &mut DaemonState, bytes: &Vec<u8>) -> (r: Response)
    ensures
        parse_req(bytes@) matches Some(q) ==> (final(state)@, r@) == spec_handle(old(state)@, q),
        parse_req(bytes@) is None ==> final(state)@ == old(state)@ && r@ == (ResponseV::Error {
            message: "invalid request"@,
        }),
{
    match decode_request(bytes) {
        Some(q) => handle_request(state, q),
        None => Response::Error { message: String::from_str("invalid request") },
    }
}

/// A request survives the codec: decoding its encoding gives it back.
pub proof fn lemma_request_round_trip(q: Request)
    ensures
        parse_req(req_bytes(q)) == Some(q),
{
}

/// A response survives the codec: decoding its encoding gives it back,
/// whenever the error message fits its 16-bit byte count.
pub proof fn lemma_response_round_trip(v: ResponseV)
    requires
        v matches ResponseV::Error { message } ==> encode_utf8(message).len() <= 0xFFFF,
    ensures
        parse_resp(resp_bytes(v)) == Some(v),
{
    match v {
        ResponseV::Error { message } => {
            let payload = encode_utf8(message);
            let b = resp_bytes(v);
            encode_utf8_valid_utf8(message);
            encode_utf8_decode_utf8(message);
            assert(b.skip(3) =~= payload);
        },
        _ => {},
    }
}

/// A payload survives framing: unframing its frame gives it back.
pub proof fn lemma_frame_round_trip(p: Seq<u8>)
    requires
        p.len() <= 0xFFFF,
    ensures
        unframe_bytes(frame_bytes(p)) == Some(p),
{
    assert(frame_bytes(p).skip(2) =~= p);
}

} // verus!
