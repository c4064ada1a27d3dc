//! The outbound delivery channel of a session: the sending half of an
//! unbounded, ordered queue whose only consumer writes to the session's socket.

use tokio_tungstenite::tungstenite::protocol::Message;
use vstd::prelude::*;

verus! {

/// The sending half of tokio's unbounded channel.
#[verifier::external_type_specification]
#[verifier::external_body]
#[verifier::reject_recursive_types(T)]
pub struct ExUnboundedSender<T>(tokio::sync::mpsc::UnboundedSender<T>);

/// A WebSocket message of tungstenite.
#[verifier::external_type_specification]
#[verifier::external_body]
pub struct ExMessage(tokio_tungstenite::tungstenite::protocol::Message);

/// The outbound delivery channel of one session.
pub type Channel = tokio::sync::mpsc::UnboundedSender<Message>;

/// `UnboundedSender::send` with a text message made of `payload`. It never
/// waits. Whether the message is taken depends on the receiving half, so
/// nothing is promised of the answer: it is `true` when the message was queued
/// and `false` when the receiver is closed or gone. (tokio counts the messages
/// that wait in a channel, and ends the process if that count overflows.)
#[verifier::external_body]
pub(crate) fn offer(channel: &Channel, payload: &str) -> (accepted: bool) {
    channel.send(Message::Text(payload.to_string())).is_ok()
}

} // verus!
