use partymode::socket::{
    decode_request, decode_response, encode_request, encode_response, frame, unframe, Request,
    Response, SocketError,
};

#[test]
fn request_wire_bytes() {
    assert_eq!(encode_request(Request::SetEnabled { enabled: true }), vec![0u8, 1u8]);
    assert_eq!(encode_request(Request::SetEnabled { enabled: false }), vec![0u8, 0u8]);
    assert_eq!(encode_request(Request::Toggle), vec![1u8]);
    assert_eq!(encode_request(Request::Status), vec![2u8]);
}

#[test]
fn request_round_trips() {
    for q in [
        Request::SetEnabled { enabled: true },
        Request::SetEnabled { enabled: false },
        Request::Toggle,
        Request::Status,
    ] {
        assert_eq!(decode_request(&encode_request(q)), Some(q));
    }
}

#[test]
fn malformed_requests_are_rejected() {
    assert_eq!(decode_request(&vec![]), None);
    assert_eq!(decode_request(&vec![3u8]), None);
    // A Toggle tag must carry no payload.
    assert_eq!(decode_request(&vec![1u8, 0u8]), None);
    // A boolean byte other than 0 or 1 is not canonical.
    assert_eq!(decode_request(&vec![0u8, 2u8]), None);
    assert_eq!(decode_request(&vec![0u8]), None);
}

#[test]
fn response_wire_bytes() {
    assert_eq!(encode_response(&Response::Done), vec![0u8]);
    assert_eq!(encode_response(&Response::Status { enabled: true }), vec![1u8, 1u8]);
    assert_eq!(encode_response(&Response::Status { enabled: false }), vec![1u8, 0u8]);
    assert_eq!(
        encode_response(&Response::Error { message: "hi".to_string() }),
        vec![2u8, 0u8, 2u8, b'h', b'i'],
    );
}

#[test]
fn response_round_trips() {
    let cases = vec![
        Response::Done,
        Response::Status { enabled: true },
        Response::Status { enabled: false },
        Response::Error { message: String::new() },
        Response::Error { message: "socket went away".to_string() },
        Response::Error { message: "p\u{00e4}rty \u{1f389}".to_string() },
    ];
    for resp in cases {
        let decoded = decode_response(&encode_response(&resp));
        match (decoded, resp) {
            (Some(Response::Done), Response::Done) => {},
            (Some(Response::Status { enabled: a }), Response::Status { enabled: b }) => {
                assert_eq!(a, b)
            },
            (Some(Response::Error { message: a }), Response::Error { message: b }) => {
                assert_eq!(a, b)
            },
            (got, want) => panic!("decoded {:?} from {:?}", got, want),
        }
    }
}

#[test]
fn malformed_responses_are_rejected() {
    assert_eq!(decode_response(&vec![]).is_some(), false);
    assert!(decode_response(&vec![7u8]).is_none());
    // An error payload whose inner length disagrees with the bytes.
    assert!(decode_response(&vec![2u8, 0u8, 5u8, b'h', b'i']).is_none());
    // An error payload that is not UTF-8.
    assert!(decode_response(&vec![2u8, 0u8, 2u8, 0xffu8, 0xfeu8]).is_none());
    // A status payload with a non-canonical boolean byte.
    assert!(decode_response(&vec![1u8, 2u8]).is_none());
}

#[test]
fn frame_round_trips() {
    let payload = vec![2u8, 0u8, 1u8, b'x'];
    let framed = frame(payload.clone());
    assert_eq!(framed, vec![0u8, 4u8, 2u8, 0u8, 1u8, b'x']);
    assert_eq!(unframe(&framed), Some(payload));
}

#[test]
fn frame_of_empty_payload() {
    let framed = frame(Vec::new());
    assert_eq!(framed, vec![0u8, 0u8]);
    assert_eq!(unframe(&framed), Some(Vec::new()));
}

#[test]
fn frame_uses_big_endian_length() {
    let payload = vec![0u8; 300];
    let framed = frame(payload.clone());
    assert_eq!(framed[0], 1u8);
    assert_eq!(framed[1], 44u8);
    assert_eq!(unframe(&framed), Some(payload));
}

#[test]
fn unframe_rejects_wrong_prefix() {
    assert!(unframe(&vec![]).is_none());
    assert!(unframe(&vec![0u8]).is_none());
    assert!(unframe(&vec![0u8, 3u8, 1u8]).is_none());
    assert!(unframe(&vec![0u8, 0u8, 1u8]).is_none());
}

#[test]
fn socket_error_carries_its_cause() {
    let e = SocketError::IoError("address in use".to_string());
    assert!(matches!(e, SocketError::IoError(m) if m == "address in use"));
}

#[test]
fn frame_of_largest_payload() {
    let payload = vec![7u8; 0xFFFF];
    let framed = frame(payload.clone());
    assert_eq!(framed[0], 0xFF);
    assert_eq!(framed[1], 0xFF);
    assert_eq!(unframe(&framed), Some(payload));
}

#[test]
fn error_message_at_largest_length() {
    let msg = "x".repeat(0xFFFF);
    let resp = Response::Error { message: msg.clone() };
    match decode_response(&encode_response(&resp)) {
        Some(Response::Error { message }) => assert_eq!(message, msg),
        other => panic!("decoded {:?}", other),
    }
}
