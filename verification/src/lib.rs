//! A pull-style UDP packet-event queue engine.
//!
//! The library holds the verified core of a listener/queue system: a
//! packet queue with a last-in-first-out pull policy and a fixed
//! receive capacity, the poll-step transition that a listener thread
//! runs on it, the request/reply protocol vocabulary exchanged with a
//! consumer, and the codec boundary that turns queued bytes into typed
//! values. Socket I/O, threads and channels live outside the library
//! and drive these functions.

pub mod codec;
pub mod errors;
pub mod laws;
pub mod packet;
pub mod protocol;
pub mod queue;

pub use codec::decode_packet;
pub use codec::encode_payload;
pub use codec::pop_from_reply;
pub use errors::RecvError;
pub use errors::SendError;
pub use packet::Packet;
pub use protocol::interpret_reply;
pub use protocol::poll_step;
pub use protocol::service_request;
pub use protocol::Msg;
pub use queue::PacketQueue;
