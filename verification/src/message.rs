//! The frames that travel over the socket.

use vstd::prelude::*;

verus! {

/// One WebSocket frame, outbound or inbound.
#[derive(Debug, Clone, PartialEq, Eq)]
pub enum Message {
    /// A text frame.
    Text(String),
    /// A binary frame.
    Binary(Vec<u8>),
}

/// What a [`Message`] is, mathematically: its variant and its payload.
pub enum MessageView {
    Text(Seq<char>),
    Binary(Seq<u8>),
}

impl View for Message {
    type V = MessageView;

    open spec fn view(&self) -> MessageView {
        match self {
            Message::Text(text) => MessageView::Text(text@),
            Message::Binary(bytes) => MessageView::Binary(bytes@),
        }
    }
}

} // verus!
