//! The connection context: a flag that follows the transport's lifecycle,
//! sends that go out only while the flag is up, and a dispatcher that routes
//! each inbound frame to the one registered handler.

use crate::error::{SendError, SendErrorView, WebSocketError};
use crate::message::{Message, MessageView};
use crate::record::{LogRecord, LogRecordView};
use vstd::prelude::*;

verus! {

/// What the transport reports about the life of the connection.
#[derive(Debug, Clone, PartialEq, Eq)]
pub enum LifecycleEvent {
    /// The connection was established.
    Connected,
    /// The connection closed, cleanly or after an error.
    Closed,
    /// The transport hit an error; the payload is its rendering of it.
    Error(String),
}

/// A [`LifecycleEvent`] over sequences of characters.
pub enum LifecycleEventView {
    Connected,
    Closed,
    Error(Seq<char>),
}

impl View for LifecycleEvent {
    type V = LifecycleEventView;

    open spec fn view(&self) -> LifecycleEventView {
        match self {
            LifecycleEvent::Connected => LifecycleEventView::Connected,
            LifecycleEvent::Closed => LifecycleEventView::Closed,
            LifecycleEvent::Error(detail) => LifecycleEventView::Error(detail@),
        }
    }
}

/// The form of the handler that takes inbound frames.
#[derive(Debug, Clone, Copy, PartialEq, Eq, Structural)]
pub enum HandlerKind {
    /// Takes every frame as it came.
    Raw,
    /// Takes the payload of text frames only.
    Text,
    /// Takes values decoded from the JSON in text frames.
    Json,
}

/// The transport primitive to call, with its argument.
#[derive(Debug, Clone, PartialEq, Eq)]
pub enum Command {
    /// Call the transport's text send with this string.
    SendString(String),
    /// Call the transport's binary send with these bytes.
    SendBinary(Vec<u8>),
}

/// A [`Command`] over sequences.
pub enum CommandView {
    SendString(Seq<char>),
    SendBinary(Seq<u8>),
}

impl View for Command {
    type V = CommandView;

    open spec fn view(&self) -> CommandView {
        match self {
            Command::SendString(text) => CommandView::SendString(text@),
            Command::SendBinary(bytes) => CommandView::SendBinary(bytes@),
        }
    }
}

/// What becomes of one inbound frame.
#[derive(Debug, Clone, PartialEq, Eq)]
pub enum Inbound {
    /// Call the handler with the frame itself.
    Raw(Message),
    /// Call the handler with this text.
    Text(String),
    /// Decode this text as the handler's type, then see [`json_outcome`].
    Decode(String),
    /// Call nothing and log nothing.
    Ignored,
    /// Call nothing and log this record.
    Rejected(LogRecord),
}

/// An [`Inbound`] over sequences.
pub enum InboundView {
    Raw(MessageView),
    Text(Seq<char>),
    Decode(Seq<char>),
    Ignored,
    Rejected(LogRecordView),
}

impl View for Inbound {
    type V = InboundView;

    open spec fn view(&self) -> InboundView {
        match self {
            Inbound::Raw(message) => InboundView::Raw(message@),
            Inbound::Text(text) => InboundView::Text(text@),
            Inbound::Decode(text) => InboundView::Decode(text@),
            Inbound::Ignored => InboundView::Ignored,
            Inbound::Rejected(record) => InboundView::Rejected(record@),
        }
    }
}

/// The connection context as a mathematical value, with its transitions.
pub struct DioxusWsView {
    /// The URL the context is bound to.
    pub url: Seq<char>,
    /// Whether it is safe to send now.
    pub connected: bool,
    /// The form of the registered handler, if one is registered.
    pub handler: Option<HandlerKind>,
}

impl DioxusWsView {
    /// A new context for `url`: not yet connected, no handler.
    pub open spec fn create(url: Seq<char>) -> DioxusWsView {
        DioxusWsView { url, connected: false, handler: None }
    }

    /// The context once the connection is established.
    pub open spec fn on_connection(self) -> DioxusWsView {
        DioxusWsView { connected: true, ..self }
    }

    /// The context once the connection has closed.
    pub open spec fn on_close(self) -> DioxusWsView {
        DioxusWsView { connected: false, ..self }
    }

    /// The context after one lifecycle event. An error alone changes nothing.
    pub open spec fn after(self, event: LifecycleEventView) -> DioxusWsView {
        match event {
            LifecycleEventView::Connected => self.on_connection(),
            LifecycleEventView::Closed => self.on_close(),
            LifecycleEventView::Error(_) => self,
        }
    }

    /// What is logged for one lifecycle event.
    pub open spec fn log_of(event: LifecycleEventView) -> Option<LogRecordView> {
        match event {
            LifecycleEventView::Connected => None,
            LifecycleEventView::Closed => Some(LogRecordView::connection_closed()),
            LifecycleEventView::Error(detail) => Some(LogRecordView::transport_error(detail)),
        }
    }

    /// The context after a run of lifecycle events, oldest first.
    pub open spec fn after_all(self, events: Seq<LifecycleEventView>) -> DioxusWsView
        decreases events.len(),
    {
        if events.len() == 0 {
            self
        } else {
            self.after_all(events.drop_last()).after(events.last())
        }
    }

    /// The context with `kind` in its one handler slot.
    pub open spec fn with_handler(self, kind: HandlerKind) -> DioxusWsView {
        DioxusWsView { handler: Some(kind), ..self }
    }

    /// What a send comes to: while connected, the frame goes to the transport
    /// primitive of its variant; otherwise it is refused.
    pub open spec fn send(self, message: MessageView) -> Result<CommandView, SendErrorView> {
        if self.connected {
            match message {
                MessageView::Text(text) => Ok(CommandView::SendString(text)),
                MessageView::Binary(bytes) => Ok(CommandView::SendBinary(bytes)),
            }
        } else {
            Err(SendErrorView::SocketNotConnected)
        }
    }

    /// What the registered handler gets of an inbound frame.
    pub open spec fn on_message(self, message: MessageView) -> InboundView {
        match self.handler {
            None => InboundView::Ignored,
            Some(HandlerKind::Raw) => InboundView::Raw(message),
            Some(HandlerKind::Text) => match message {
                MessageView::Text(text) => InboundView::Text(text),
                MessageView::Binary(_) => InboundView::Ignored,
            },
            Some(HandlerKind::Json) => match message {
                MessageView::Text(text) => InboundView::Decode(text),
                MessageView::Binary(_) => InboundView::Rejected(
                    LogRecordView::binary_unsupported(),
                ),
            },
        }
    }
}

/// The view of what a send returned.
pub open spec fn sent_view(out: Result<Command, SendError>) -> Result<CommandView, SendErrorView> {
    match out {
        Ok(command) => Ok(command@),
        Err(error) => Err(error@),
    }
}

/// The view of what was, or was not, logged.
pub open spec fn logged(log: Option<LogRecord>) -> Option<LogRecordView> {
    match log {
        Some(record) => Some(record@),
        None => None,
    }
}

/// The view of what the JSON path made of a decoded frame.
pub open spec fn delivered<T>(out: Result<T, LogRecord>) -> Result<T, LogRecordView> {
    match out {
        Ok(value) => Ok(value),
        Err(record) => Err(record@),
    }
}

/// The view of the decoder's verdict on a text frame.
pub open spec fn decoded_view<T>(decoded: Result<T, String>) -> Result<T, Seq<char>> {
    match decoded {
        Ok(value) => Ok(value),
        Err(reason) => Err(reason@),
    }
}

/// The view of the transport's answer to a send.
pub open spec fn answer_view(sent: Result<(), String>) -> Result<(), Seq<char>> {
    match sent {
        Ok(_) => Ok(()),
        Err(detail) => Err(detail@),
    }
}

/// What the JSON path does with the decoder's verdict on a text frame: a
/// decoded value goes to the handler, a failure is logged and nothing is called.
pub open spec fn json_outcome_spec<T>(decoded: Result<T, Seq<char>>) -> Result<T, LogRecordView> {
    match decoded {
        Ok(value) => Ok(value),
        Err(reason) => Err(LogRecordView::decode_failed(reason)),
    }
}

/// What is logged once the transport has answered a send.
pub open spec fn send_outcome_spec(sent: Result<(), Seq<char>>) -> Option<LogRecordView> {
    match sent {
        Ok(_) => None,
        Err(detail) => Some(SendErrorView::JsError(detail).log_record()),
    }
}

/// The connection context.
#[derive(Debug, PartialEq, Eq)]
pub struct DioxusWs {
    url: String,
    connected: bool,
    handler: Option<HandlerKind>,
}

impl View for DioxusWs {
    type V = DioxusWsView;

    closed spec fn view(&self) -> DioxusWsView {
        DioxusWsView { url: self.url@, connected: self.connected, handler: self.handler }
    }
}

impl DioxusWs {
    /// Makes the context for `url`, given how the construction of its
    /// transport went. A failed construction is handed back to the caller;
    /// otherwise the context starts disconnected, with no handler.
    pub fn new(url: &str, opened: Result<(), WebSocketError>) -> (made: Result<
        DioxusWs,
        WebSocketError,
    >)
        ensures
            match opened {
                Ok(_) => made is Ok && made->Ok_0@ == DioxusWsView::create(url@),
                Err(error) => made == Err::<DioxusWs, WebSocketError>(error),
            },
    {
        match opened {
            Ok(_) => Ok(DioxusWs { url: String::from_str(url), connected: false, handler: None }),
            Err(error) => Err(error),
        }
    }

    /// The URL the context is bound to.
    pub fn url(&self) -> (url: &str)
        ensures
            url@ == self@.url,
    {
        self.url.as_str()
    }

    /// Whether a send would go out now.
    pub fn is_connected(&self) -> (connected: bool)
        ensures
            connected == self@.connected,
    {
        self.connected
    }

    /// The form of the registered handler, if one is registered.
    pub fn handler(&self) -> (handler: Option<HandlerKind>)
        ensures
            handler == self@.handler,
    {
        self.handler
    }

    /// The transport established the connection.
    pub fn on_connection(&mut self)
        ensures
            final(self)@ == old(self)@.on_connection(),
    {
        self.connected = true;
    }

    /// The transport closed the connection. Returns the record to log.
    pub fn on_close(&mut self) -> (record: LogRecord)
        ensures
            final(self)@ == old(self)@.on_close(),
            record@ == LogRecordView::connection_closed(),
    {
        self.connected = false;
        LogRecord::connection_closed()
    }

    /// The transport reported an error, rendered as `detail`. Returns the
    /// record to log; the flag is left to the close event that may follow.
    pub fn on_error(&self, detail: &str) -> (record: LogRecord)
        ensures
            record@ == LogRecordView::transport_error(detail@),
    {
        LogRecord::transport_error(detail)
    }

    /// Takes one lifecycle event. Returns the record to log, if any.
    pub fn handle_event(&mut self, event: LifecycleEvent) -> (log: Option<LogRecord>)
        ensures
            final(self)@ == old(self)@.after(event@),
            logged(log) == DioxusWsView::log_of(event@),
    {
        match event {
            LifecycleEvent::Connected => {
                self.on_connection();
                None
            },
            LifecycleEvent::Closed => Some(self.on_close()),
            LifecycleEvent::Error(detail) => Some(self.on_error(detail.as_str())),
        }
    }

    /// Puts `kind` in the one handler slot, replacing what was there.
    pub fn set_on_message(&mut self, kind: HandlerKind)
        ensures
            final(self)@ == old(self)@.with_handler(kind),
    {
        self.handler = Some(kind);
    }

    /// Routes one inbound frame to the registered handler.
    pub fn on_message(&self, message: Message) -> (out: Inbound)
        ensures
            out@ == self@.on_message(message@),
    {
        match self.handler {
            None => Inbound::Ignored,
            Some(HandlerKind::Raw) => Inbound::Raw(message),
            Some(HandlerKind::Text) => match message {
                Message::Text(text) => Inbound::Text(text),
                Message::Binary(_) => Inbound::Ignored,
            },
            Some(HandlerKind::Json) => match message {
                Message::Text(text) => Inbound::Decode(text),
                Message::Binary(_) => Inbound::Rejected(LogRecord::binary_unsupported()),
            },
        }
    }

    /// Sends a frame: while connected, names the transport primitive to call;
    /// otherwise drops the frame and says so.
    pub fn send(&self, message: Message) -> (out: Result<Command, SendError>)
        ensures
            sent_view(out) == self@.send(message@),
    {
        if self.connected {
            match message {
                Message::Text(text) => Ok(Command::SendString(text)),
                Message::Binary(bytes) => Ok(Command::SendBinary(bytes)),
            }
        } else {
            Err(SendError::SocketNotConnected())
        }
    }

    /// Sends a string as a text frame.
    pub fn send_text(&self, text: String) -> (out: Result<Command, SendError>)
        ensures
            sent_view(out) == self@.send(MessageView::Text(text@)),
    {
        self.send(Message::Text(text))
    }

    /// Sends a value's JSON encoding as a text frame.
    pub fn send_json(&self, json: String) -> (out: Result<Command, SendError>)
        ensures
            sent_view(out) == self@.send(MessageView::Text(json@)),
    {
        self.send(Message::Text(json))
    }
}

/// Tells what to log once the transport has answered a send: nothing when it
/// took the frame, one error record when it refused.
pub fn send_outcome(sent: Result<(), String>) -> (log: Option<LogRecord>)
    ensures
        logged(log) == send_outcome_spec(answer_view(sent)),
{
    match sent {
        Ok(_) => None,
        Err(detail) => {
            let error = SendError::from(detail);
            Some(error.log_record())
        },
    }
}

/// Tells what the JSON path does with the decoder's verdict on a text frame.
pub fn json_outcome<T>(decoded: Result<T, String>) -> (out: Result<T, LogRecord>)
    ensures
        delivered(out) == json_outcome_spec(decoded_view(decoded)),
{
    match decoded {
        Ok(value) => Ok(value),
        Err(reason) => Err(LogRecord::decode_failed(reason.as_str())),
    }
}

} // verus!
