use msgpack_rpc::codec::Codec;
use msgpack_rpc::message::{DecodeError, Message, Notification, Request, Response};
use msgpack_rpc::value::{dup_value, Val};

fn dummy_request() -> Message {
    Message::Request(Request { id: 1234, method: "dummy".to_string(), params: Vec::new() })
}

#[test]
fn test_decode_request() {
    let valid = dummy_request();
    let bytes = valid.pack();

    // valid message
    {
        assert_eq!(valid, Message::decode(&bytes).unwrap());
    }

    // truncated
    {
        let bytes = Vec::from(&bytes[0..bytes.len() - 1]);
        assert!(match Message::decode(&bytes) {
            Err(DecodeError::Truncated) => true,
            _ => false,
        });
    }

    // invalid message type
    {
        let mut bytes = Vec::from(&bytes[..]);
        bytes[1] = 5;
        assert!(match Message::decode(&bytes) {
            Err(DecodeError::Invalid) => true,
            _ => false,
        });
    }
}

#[test]
fn pack_writes_the_tagged_array() {
    let bytes = dummy_request().pack();
    assert_eq!(
        bytes,
        vec![0x94, 0x00, 0xcd, 0x04, 0xd2, 0xa5, b'd', b'u', b'm', b'm', b'y', 0x90],
    );
}

#[test]
fn round_trip_request_with_params() {
    let params = vec![
        Val::Nil,
        Val::Bool(true),
        Val::UInt(18_446_744_073_709_551_615),
        Val::SInt(-5),
        Val::Text("héllo".to_string()),
        Val::Bin(vec![0, 1, 254, 255]),
        Val::Arr(vec![Val::UInt(1), Val::Arr(vec![Val::SInt(-1)])]),
        Val::Dict(vec![(Val::Text("k".to_string()), Val::UInt(9))]),
        Val::Ext(-1, vec![1, 2, 3, 4]),
    ];
    let msg = Message::Request(Request { id: 0, method: "sum".to_string(), params });
    let decoded = Message::decode(&msg.pack()).unwrap();
    assert_eq!(msg, decoded);
}

#[test]
fn round_trip_notification() {
    let msg = Message::Notification(Notification {
        method: "log".to_string(),
        params: vec![Val::Text("line".to_string())],
    });
    let decoded = Message::decode(&msg.pack()).unwrap();
    assert_eq!(msg, decoded);
}

#[test]
fn round_trip_response_success() {
    let msg = Message::Response(Response { id: 77, result: Ok(Val::UInt(42)) });
    let decoded = Message::decode(&msg.pack()).unwrap();
    assert_eq!(msg, decoded);
}

#[test]
fn round_trip_response_failure() {
    let msg = Message::Response(Response {
        id: 78,
        result: Err(Val::Text("boom".to_string())),
    });
    let decoded = Message::decode(&msg.pack()).unwrap();
    assert_eq!(msg, decoded);
}

#[test]
fn nil_error_field_reads_as_success() {
    // The wire rule conflates "no error" with "the error is nil": a
    // response whose error slot is nil is a success, so a failure
    // carrying nil comes back as a success carrying nil.
    let msg = Message::Response(Response { id: 5, result: Err(Val::Nil) });
    let decoded = Message::decode(&msg.pack()).unwrap();
    assert_eq!(
        decoded,
        Message::Response(Response { id: 5, result: Ok(Val::Nil) }),
    );
}

#[test]
fn every_strict_prefix_is_truncated() {
    let bytes = Message::Notification(Notification {
        method: "ping".to_string(),
        params: vec![Val::UInt(1), Val::Text("x".to_string())],
    })
    .pack();
    for cut in 0..bytes.len() {
        let prefix = Vec::from(&bytes[0..cut]);
        assert!(matches!(Message::decode(&prefix), Err(DecodeError::Truncated)));
    }
}

#[test]
fn unknown_discriminant_is_invalid() {
    // [3, 1, "m", []] — a well-shaped array whose tag is out of range.
    let bytes = vec![0x94, 0x03, 0x01, 0xa1, b'm', 0x90];
    assert!(matches!(Message::decode(&bytes), Err(DecodeError::Invalid)));
}

#[test]
fn non_integer_discriminant_is_invalid() {
    // ["x", 1, "m"]
    let bytes = vec![0x93, 0xa1, b'x', 0x01, 0xa1, b'm'];
    assert!(matches!(Message::decode(&bytes), Err(DecodeError::Invalid)));
}

#[test]
fn short_outer_array_is_invalid() {
    // [0, 1] — shorter than any message.
    let bytes = vec![0x92, 0x00, 0x01];
    assert!(matches!(Message::decode(&bytes), Err(DecodeError::Invalid)));
}

#[test]
fn request_arity_below_minimum_is_invalid() {
    // [0, 1, "m"] — a request without its params slot.
    let bytes = vec![0x93, 0x00, 0x01, 0xa1, b'm'];
    assert!(matches!(Message::decode(&bytes), Err(DecodeError::Invalid)));
}

#[test]
fn response_arity_below_minimum_is_invalid() {
    // [1, 1, nil] — a response without its result slot.
    let bytes = vec![0x93, 0x01, 0x01, 0xc0];
    assert!(matches!(Message::decode(&bytes), Err(DecodeError::Invalid)));
}

#[test]
fn non_array_value_is_invalid() {
    let bytes = vec![0x2a];
    assert!(matches!(Message::decode(&bytes), Err(DecodeError::Invalid)));
}

#[test]
fn oversized_request_id_is_invalid() {
    // [0, 0x1_0000_0000, "m", []] — the id does not fit 32 bits.
    let mut bytes = vec![0x94, 0x00, 0xcf, 0x00, 0x00, 0x00, 0x01, 0x00, 0x00, 0x00, 0x00];
    bytes.extend_from_slice(&[0xa1, b'm', 0x90]);
    assert!(matches!(Message::decode(&bytes), Err(DecodeError::Invalid)));
}

#[test]
fn dup_value_copies_deeply() {
    let v = Val::Arr(vec![
        Val::Dict(vec![(Val::Text("k".to_string()), Val::Bin(vec![9]))]),
        Val::SInt(-3),
    ]);
    assert_eq!(dup_value(&v), v);
}

#[test]
fn codec_waits_for_more_bytes() {
    let bytes = dummy_request().pack();
    let mut codec = Codec::new();
    codec.feed(&Vec::from(&bytes[0..3]));
    assert!(matches!(codec.try_next(), Ok(None)));
    assert_eq!(codec.buffered(), 3);
    codec.feed(&Vec::from(&bytes[3..]));
    let got = codec.try_next().unwrap().unwrap();
    assert_eq!(got, dummy_request());
    assert_eq!(codec.buffered(), 0);
}

#[test]
fn codec_yields_messages_in_order() {
    let first = dummy_request();
    let second = Message::Notification(Notification {
        method: "n".to_string(),
        params: Vec::new(),
    });
    let mut stream = first.pack();
    stream.extend_from_slice(&second.pack());
    let mut codec = Codec::new();
    codec.feed(&stream);
    assert_eq!(codec.try_next().unwrap().unwrap(), first);
    assert_eq!(codec.try_next().unwrap().unwrap(), second);
    assert!(matches!(codec.try_next(), Ok(None)));
}

#[test]
fn codec_reports_invalid_bytes() {
    let mut codec = Codec::new();
    codec.feed(&vec![0x92, 0x00, 0x01]);
    assert!(matches!(codec.try_next(), Err(DecodeError::Invalid)));
}

#[test]
fn decode_reads_one_message_and_ignores_what_follows() {
    let mut bytes = dummy_request().pack();
    bytes.extend_from_slice(&[0xc0, 0x01, 0xff]);
    assert_eq!(Message::decode(&bytes).unwrap(), dummy_request());
}
