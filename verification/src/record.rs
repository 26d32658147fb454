//! What the core asks its caller to log, and at which level.

use vstd::prelude::*;

verus! {

/// The severity of a log record.
#[derive(Debug, Clone, Copy, PartialEq, Eq, Structural)]
pub enum Level {
    Error,
    Info,
}

/// One line for the caller's logger.
#[derive(Debug, Clone, PartialEq, Eq)]
pub struct LogRecord {
    pub level: Level,
    pub text: String,
}

/// A [`LogRecord`] as a level and a sequence of characters.
pub struct LogRecordView {
    pub level: Level,
    pub text: Seq<char>,
}

impl View for LogRecord {
    type V = LogRecordView;

    open spec fn view(&self) -> LogRecordView {
        LogRecordView { level: self.level, text: self.text@ }
    }
}

impl LogRecordView {
    /// The transport reported an error; `detail` is the transport's rendering of it.
    pub open spec fn transport_error(detail: Seq<char>) -> LogRecordView {
        LogRecordView { level: Level::Error, text: "Web socket error: "@ + detail }
    }

    /// The transport reported that the connection closed.
    pub open spec fn connection_closed() -> LogRecordView {
        LogRecordView { level: Level::Info, text: "Websocket connection closed."@ }
    }

    /// The transport refused a frame; `detail` is the transport's rendering of the failure.
    pub open spec fn send_failed(detail: Seq<char>) -> LogRecordView {
        LogRecordView {
            level: Level::Error,
            text: "Error when sending message on websocket: "@ + detail,
        }
    }

    /// A send was attempted while the connection was not open.
    pub open spec fn not_connected() -> LogRecordView {
        LogRecordView {
            level: Level::Error,
            text: "WebSocket tried to send message when not connected."@,
        }
    }

    /// No transport could be made for `url`; `reason` is the construction error's message.
    pub open spec fn create_failed(url: Seq<char>, reason: Seq<char>) -> LogRecordView {
        LogRecordView {
            level: Level::Error,
            text: "Error creating WebSocket for "@ + url + ": "@ + reason,
        }
    }

    /// An inbound text frame did not decode as the handler's type.
    pub open spec fn decode_failed(reason: Seq<char>) -> LogRecordView {
        LogRecordView {
            level: Level::Error,
            text: "Error while deserializing websocket response: "@ + reason,
        }
    }

    /// A binary frame reached a handler that takes decoded JSON.
    pub open spec fn binary_unsupported() -> LogRecordView {
        LogRecordView {
            level: Level::Error,
            text: "Error: binary websocket message unsupported"@,
        }
    }
}

impl LogRecord {
    /// The record for a transport error.
    pub fn transport_error(detail: &str) -> (record: LogRecord)
        ensures
            record@ == LogRecordView::transport_error(detail@),
    {
        let mut text = String::from_str("Web socket error: ");
        text.append(detail);
        LogRecord { level: Level::Error, text }
    }

    /// The record for a closed connection.
    pub fn connection_closed() -> (record: LogRecord)
        ensures
            record@ == LogRecordView::connection_closed(),
    {
        LogRecord { level: Level::Info, text: String::from_str("Websocket connection closed.") }
    }

    /// The record for a frame that the transport refused.
    pub fn send_failed(detail: &str) -> (record: LogRecord)
        ensures
            record@ == LogRecordView::send_failed(detail@),
    {
        let mut text = String::from_str("Error when sending message on websocket: ");
        text.append(detail);
        LogRecord { level: Level::Error, text }
    }

    /// The record for a send attempted while not connected.
    pub fn not_connected() -> (record: LogRecord)
        ensures
            record@ == LogRecordView::not_connected(),
    {
        LogRecord {
            level: Level::Error,
            text: String::from_str("WebSocket tried to send message when not connected."),
        }
    }

    /// The record for a transport that could not be made.
    pub fn create_failed(url: &str, reason: &str) -> (record: LogRecord)
        ensures
            record@ == LogRecordView::create_failed(url@, reason@),
    {
        let mut text = String::from_str("Error creating WebSocket for ");
        text.append(url);
        text.append(": ");
        text.append(reason);
        LogRecord { level: Level::Error, text }
    }

    /// The record for an inbound text frame that did not decode.
    pub fn decode_failed(reason: &str) -> (record: LogRecord)
        ensures
            record@ == LogRecordView::decode_failed(reason@),
    {
        let mut text = String::from_str("Error while deserializing websocket response: ");
        text.append(reason);
        LogRecord { level: Level::Error, text }
    }

    /// The record for a binary frame on the JSON path.
    pub fn binary_unsupported() -> (record: LogRecord)
        ensures
            record@ == LogRecordView::binary_unsupported(),
    {
        LogRecord {
            level: Level::Error,
            text: String::from_str("Error: binary websocket message unsupported"),
        }
    }
}

} // verus!
