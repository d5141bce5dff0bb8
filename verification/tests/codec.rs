//! Tests of the codec boundary with the real codec linked: typed
//! values pushed through the queue engine come back equal, and decode,
//! protocol and encode failures stay distinguishable.

use netev::encode_payload;
use netev::pop_from_reply;
use netev::poll_step;
use netev::Msg;
use netev::Packet;
use netev::PacketQueue;
use netev::RecvError;
use netev::SendError;

/// Feeds one payload through a fresh queue, as the listener would, and
/// hands back the reply to the first pull.
fn through_queue(payload: Vec<u8>) -> Msg {
    let mut q = PacketQueue::new(256);
    let no_reply = poll_step(
        &mut q,
        None,
        Some(Packet::new(payload, "127.0.0.1:41000".to_string())),
    );
    assert!(no_reply.is_none());
    poll_step(&mut q, Some(Msg::Request), None).expect("a request always gets a reply")
}

#[test]
fn round_trip_number() {
    let bytes = encode_payload(&5u32).unwrap();
    let got: Result<Option<u32>, RecvError> = pop_from_reply(through_queue(bytes));
    assert_eq!(got, Ok(Some(5)));
}

#[test]
fn round_trip_empty_value() {
    let bytes = encode_payload(&()).unwrap();
    assert!(bytes.is_empty());
    let got: Result<Option<()>, RecvError> = pop_from_reply(through_queue(bytes));
    assert_eq!(got, Ok(Some(())));
}

#[test]
fn round_trip_multibyte_text() {
    let text = "héllo, wörld — ❤".to_string();
    let bytes = encode_payload(&text).unwrap();
    let got: Result<Option<String>, RecvError> = pop_from_reply(through_queue(bytes));
    assert_eq!(got, Ok(Some(text)));
}

#[test]
fn round_trip_max_size_payload() {
    // An 8-byte length prefix plus 248 bytes fills the default
    // 256-byte receive capacity exactly.
    let payload: Vec<u8> = (0..248).map(|i| i as u8).collect();
    let bytes = encode_payload(&payload).unwrap();
    assert_eq!(bytes.len(), 256);
    let got: Result<Option<Vec<u8>>, RecvError> = pop_from_reply(through_queue(bytes));
    assert_eq!(got, Ok(Some(payload)));
}

#[test]
fn encode_produces_the_wire_bytes() {
    assert_eq!(encode_payload(&5u32).unwrap(), vec![5, 0, 0, 0]);
    assert_eq!(
        encode_payload(&"ab".to_string()).unwrap(),
        vec![2, 0, 0, 0, 0, 0, 0, 0, b'a', b'b']
    );
}

#[test]
fn undecodable_bytes_are_a_decode_error() {
    let got: Result<Option<String>, RecvError> =
        pop_from_reply(through_queue(vec![255, 255, 255, 255, 255, 255, 255, 255]));
    assert_eq!(got, Err(RecvError::Decode));
    let too_short: Result<Option<u32>, RecvError> = pop_from_reply(through_queue(vec![1, 2]));
    assert_eq!(too_short, Err(RecvError::Decode));
}

#[test]
fn failure_modes_stay_apart() {
    let fault: Result<Option<u32>, RecvError> = pop_from_reply(Msg::Fault);
    assert_eq!(fault, Err(RecvError::Fault));
    let stray_request: Result<Option<u32>, RecvError> = pop_from_reply(Msg::Request);
    assert_eq!(stray_request, Err(RecvError::Fault));
    let empty: Result<Option<u32>, RecvError> = pop_from_reply(Msg::Empty);
    assert_eq!(empty, Ok(None));
}

/// A value whose serialization always refuses, to reach the encode
/// error path.
struct Unencodable;

impl serde::Serialize for Unencodable {
    fn serialize<S: serde::Serializer>(&self, _serializer: S) -> Result<S::Ok, S::Error> {
        Err(serde::ser::Error::custom("refuses to encode"))
    }
}

#[test]
fn encode_failure_is_an_encode_error() {
    let got = encode_payload(&Unencodable);
    assert_eq!(got, Err(SendError::Encode));
    assert_ne!(SendError::Encode, SendError::Io);
}
