//! The two ways in which the channel can fail its user.

use crate::record::{LogRecord, LogRecordView};
use vstd::prelude::*;
use vstd::std_specs::convert::FromSpecImpl;

verus! {

/// Why no transport could be made for a URL. The caller reports this when
/// its socket layer refuses to open a connection.
#[derive(Debug, Clone, PartialEq, Eq)]
pub enum WebSocketError {
    /// The socket layer gave this reason.
    ConnectionCreationError(String),
}

/// A [`WebSocketError`] over sequences of characters.
pub enum WebSocketErrorView {
    ConnectionCreationError(Seq<char>),
}

impl View for WebSocketError {
    type V = WebSocketErrorView;

    open spec fn view(&self) -> WebSocketErrorView {
        match self {
            WebSocketError::ConnectionCreationError(reason) => {
                WebSocketErrorView::ConnectionCreationError(reason@)
            },
        }
    }
}

impl WebSocketErrorView {
    /// The error as one line of text.
    pub open spec fn message(self) -> Seq<char> {
        match self {
            WebSocketErrorView::ConnectionCreationError(reason) => {
                "Failed to create websocket connection: "@ + reason
            },
        }
    }
}

impl WebSocketError {
    /// The error as one line of text.
    pub fn message(&self) -> (text: String)
        ensures
            text@ == self@.message(),
    {
        match self {
            WebSocketError::ConnectionCreationError(reason) => {
                let mut text = String::from_str("Failed to create websocket connection: ");
                text.append(reason.as_str());
                text
            },
        }
    }
}

/// Why a frame did not go out.
#[derive(Debug, Clone, PartialEq, Eq)]
pub enum SendError {
    /// The connection was not open when the send was attempted.
    SocketNotConnected(),
    /// The transport refused the frame; the payload is its rendering of why.
    JsError(String),
}

/// A [`SendError`] over sequences of characters.
pub enum SendErrorView {
    SocketNotConnected,
    JsError(Seq<char>),
}

impl View for SendError {
    type V = SendErrorView;

    open spec fn view(&self) -> SendErrorView {
        match self {
            SendError::SocketNotConnected() => SendErrorView::SocketNotConnected,
            SendError::JsError(detail) => SendErrorView::JsError(detail@),
        }
    }
}

impl SendErrorView {
    /// The record that is logged for this error.
    pub open spec fn log_record(self) -> LogRecordView {
        match self {
            SendErrorView::SocketNotConnected => LogRecordView::not_connected(),
            SendErrorView::JsError(detail) => LogRecordView::send_failed(detail),
        }
    }
}

impl From<String> for SendError {
    fn from(value: String) -> (error: SendError) {
        SendError::JsError(value)
    }
}

impl FromSpecImpl<String> for SendError {
    open spec fn obeys_from_spec() -> bool {
        true
    }

    open spec fn from_spec(value: String) -> SendError {
        SendError::JsError(value)
    }
}

impl SendError {
    /// The record that is logged for this error.
    pub fn log_record(&self) -> (record: LogRecord)
        ensures
            record@ == self@.log_record(),
    {
        match self {
            SendError::SocketNotConnected() => LogRecord::not_connected(),
            SendError::JsError(detail) => LogRecord::send_failed(detail.as_str()),
        }
    }
}

} // verus!
