//! Classification of raw WebSocket frames. The socket itself lives
//! outside; it hands each received frame over as a `WireMessage`, and
//! `get_text` decides which frames carry protocol text, which end the
//! connection, and which are rejected.

use vstd::prelude::*;
use vstd::string::StringExecFns;

use crate::error::{CloseFrame, ShardError};

verus! {

/// One frame received on the socket, reduced to what the runtime
/// distinguishes.
#[derive(Debug)]
pub enum WireMessage {
    /// A text frame with its payload.
    Text(String),
    /// A binary frame; the negotiated protocol is plain JSON text, so
    /// these are rejected as unsupported.
    Binary(Vec<u8>),
    /// A close frame, with the peer's close information when any was
    /// sent.
    ConnectionClose(Option<CloseFrame>),
    /// Any other frame kind (ping, pong); carries nothing the protocol
    /// reads.
    Control,
}

/// Reads the protocol text out of one frame: text frames yield their
/// payload, control frames yield nothing, a close frame reports the
/// connection closed, and a binary frame is an unsupported-transport
/// fault.
pub fn get_text(msg: WireMessage) -> (r: Result<Option<String>, ShardError>)
    ensures
        (msg matches WireMessage::Text(t) ==> r matches Result::Ok(o) && o matches Option::Some(t2)
            && t2 == t),
        (msg matches WireMessage::Binary(_) ==> r matches Result::Err(ShardError::Transport(m))
            && m@ == "unsupported binary frame"@),
        (msg matches WireMessage::ConnectionClose(f) ==> r == Result::<
            Option<String>,
            ShardError,
        >::Err(ShardError::Closed(f))),
        (msg matches WireMessage::Control ==> r == Result::<Option<String>, ShardError>::Ok(
            Option::None,
        )),
{
    match msg {
        WireMessage::Text(t) => Ok(Some(t)),
        WireMessage::Binary(_) => Err(ShardError::Transport("unsupported binary frame".to_owned())),
        WireMessage::ConnectionClose(f) => Err(ShardError::Closed(f)),
        WireMessage::Control => Ok(None),
    }
}

} // verus!
