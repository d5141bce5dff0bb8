//! The codec boundary: typed application values are encoded into
//! datagram payload bytes on the send side and decoded back on the
//! pull side. The encoding itself is bincode's and is opaque here; the
//! library's part is the plumbing around it, which keeps "nothing
//! queued", "bytes did not decode" and "protocol fault" apart.

use vstd::prelude::*;

use crate::errors::RecvError;
use crate::errors::SendError;
use crate::packet::Packet;
use crate::protocol::interpret_reply;
use crate::protocol::Msg;
use crate::protocol::MsgModel;

verus! {

/// The error bincode's entry points return. It is carried through
/// opaquely and mapped to this library's error vocabulary.
#[verifier::external_type_specification]
#[verifier::external_body]
pub struct ExBincodeErrorKind(bincode::ErrorKind);

/// Relies on bincode::serialize: encodes a value into bytes by the
/// crate's default configuration; what the bytes are depends on the
/// value's serde implementation and is not stated here.
#[verifier::external_body]
fn serialize_value<T: serde::Serialize>(value: &T) -> (r: Result<Vec<u8>, Box<bincode::ErrorKind>>) {
    bincode::serialize(value)
}

/// Relies on bincode::deserialize: parses bytes back into a value by
/// the crate's default configuration; which bytes parse depends on the
/// type's serde implementation and is not stated here.
#[verifier::external_body]
fn deserialize_value<T: serde::de::DeserializeOwned>(bytes: &[u8]) -> (r: Result<
    T,
    Box<bincode::ErrorKind>,
>) {
    bincode::deserialize(bytes)
}

/// Encodes a value into the payload bytes of one outgoing datagram.
/// The sender transmits the returned bytes as they are: the payload is
/// the serialized value, with no envelope around it.
pub fn encode_payload<T: serde::Serialize>(value: &T) -> (r: Result<Vec<u8>, SendError>)
    ensures
        r matches Err(e) ==> e == SendError::Encode,
{
    match serialize_value(value) {
        Ok(bytes) => Ok(bytes),
        Err(_) => Err(SendError::Encode),
    }
}

/// Decodes one queued packet's payload bytes into a typed value. Bytes
/// that do not match the expected type are a decode error, never
/// mistaken for an empty queue.
pub fn decode_packet<T: serde::de::DeserializeOwned>(packet: &Packet) -> (r: Result<T, RecvError>)
    ensures
        r matches Err(e) ==> e == RecvError::Decode,
{
    match deserialize_value(packet.bytes.as_slice()) {
        Ok(value) => Ok(value),
        Err(_) => Err(RecvError::Decode),
    }
}

/// The consumer's typed pull, given the listener's reply: a delivered
/// packet is decoded, the empty signal is passed through as "nothing
/// queued", and a protocol fault stays a fault. The three outcomes
/// never collapse into one another.
pub fn pop_from_reply<T: serde::de::DeserializeOwned>(reply: Msg) -> (r: Result<
    Option<T>,
    RecvError,
>)
    ensures
        (r matches Ok(None)) <==> reply@ is Empty,
        (r matches Err(e) && e == RecvError::Fault) <==> (reply@ is Request || reply@ is Fault),
        reply@ is Delivered ==> (r matches Ok(Some(_)) || r matches Err(RecvError::Decode)),
{
    match interpret_reply(reply) {
        Ok(Some(packet)) => match decode_packet::<T>(&packet) {
            Ok(value) => Ok(Some(value)),
            Err(_) => Err(RecvError::Decode),
        },
        Ok(None) => Ok(None),
        Err(e) => Err(e),
    }
}

} // verus!
