//! What holds of the context over whole runs of events, stated over the
//! models that the executable functions are proved against.

use crate::connection::{
    json_outcome_spec, CommandView, DioxusWsView, HandlerKind, InboundView, LifecycleEventView,
};
use crate::error::{SendErrorView, WebSocketErrorView};
use crate::message::MessageView;
use crate::record::{Level, LogRecordView};
use crate::provider::ScopeView;
use vstd::prelude::*;

verus! {

/// Some event of the run is "connected", and no "closed" comes after it.
pub open spec fn connected_by(events: Seq<LifecycleEventView>) -> bool {
    exists|i: int|
        0 <= i < events.len() && #[trigger] events[i] is Connected && forall|j: int|
            i < j < events.len() ==> !(#[trigger] events[j] is Closed)
}

/// No event of the run is "closed".
pub open spec fn never_closed(events: Seq<LifecycleEventView>) -> bool {
    forall|j: int| 0 <= j < events.len() ==> !(#[trigger] events[j] is Closed)
}

/// Lifecycle events move the flag and nothing else. After a run of them the
/// flag is up exactly if the run connected and did not close since, or if it
/// was up before and the run never closed.
pub proof fn lemma_flag_follows_events(start: DioxusWsView, events: Seq<LifecycleEventView>)
    ensures
        start.after_all(events).url == start.url,
        start.after_all(events).handler == start.handler,
        start.after_all(events).connected <==> connected_by(events) || (start.connected
            && never_closed(events)),
    decreases events.len(),
{
    if events.len() > 0 {
        let earlier = events.drop_last();
        let last = events.len() - 1;
        lemma_flag_follows_events(start, earlier);
        assert(forall|k: int| 0 <= k < last ==> earlier[k] == events[k]);
        // A last event that connects is its own witness, and after one that
        // closes there is none. An error adds nothing: a witness for the run
        // is one for the run without its last event, and the other way round.
        if events[last] is Error {
            if connected_by(earlier) {
                let i = choose|i: int|
                    0 <= i < earlier.len() && #[trigger] earlier[i] is Connected && forall|j: int|
                        i < j < earlier.len() ==> !(#[trigger] earlier[j] is Closed);
                assert(events[i] is Connected);
            }
            if connected_by(events) {
                let i = choose|i: int|
                    0 <= i < events.len() && #[trigger] events[i] is Connected && forall|j: int|
                        i < j < events.len() ==> !(#[trigger] events[j] is Closed);
                assert(earlier[i] is Connected);
            }
        }
    }
}

/// Gating. Whatever lifecycle events a new context has seen, a send is
/// forwarded to the transport if and only if some event was "connected" and
/// no "closed" came after it; otherwise it is refused as not connected.
pub proof fn lemma_send_is_gated(
    url: Seq<char>,
    events: Seq<LifecycleEventView>,
    message: MessageView,
)
    ensures
        DioxusWsView::create(url).after_all(events).send(message) is Ok <==> connected_by(events),
        connected_by(events) ==> DioxusWsView::create(url).after_all(events).send(message) == Ok::<
            CommandView,
            SendErrorView,
        >(
            match message {
                MessageView::Text(text) => CommandView::SendString(text),
                MessageView::Binary(bytes) => CommandView::SendBinary(bytes),
            },
        ),
        !connected_by(events) ==> DioxusWsView::create(url).after_all(events).send(message) == Err::<
            CommandView,
            SendErrorView,
        >(SendErrorView::SocketNotConnected),
{
    lemma_flag_follows_events(DioxusWsView::create(url), events);
}

/// One handler slot. Registering a handler replaces the one that was
/// registered before, and touches neither the flag nor the URL.
pub proof fn lemma_registration_replaces(ws: DioxusWsView, first: HandlerKind, second: HandlerKind)
    ensures
        ws.with_handler(first).with_handler(second) == ws.with_handler(second),
        ws.with_handler(second).handler == Some(second),
        ws.with_handler(second).connected == ws.connected,
        ws.with_handler(second).url == ws.url,
{
}

/// The number of transports that a scope asks for over a run of provider
/// invocations, the caller answering each request, in turn, with the next
/// element of `answers`.
pub open spec fn transports_requested(
    scope: ScopeView,
    url: Seq<char>,
    handler: HandlerKind,
    answers: Seq<Result<(), WebSocketErrorView>>,
) -> nat
    decreases answers.len(),
{
    if answers.len() == 0 {
        0
    } else {
        match scope.request(url, handler) {
            Some(registration) => 1 + transports_requested(
                scope.entered().provided(registration, answers[0]),
                url,
                handler,
                answers.drop_first(),
            ),
            None => transports_requested(scope.entered(), url, handler, answers.drop_first()),
        }
    }
}

/// A scope on which a provider has run asks for no transport again, however
/// often a provider is invoked on it.
pub proof fn lemma_provider_asks_once(
    scope: ScopeView,
    url: Seq<char>,
    handler: HandlerKind,
    answers: Seq<Result<(), WebSocketErrorView>>,
)
    requires
        !(scope is Fresh),
    ensures
        scope.entered() == scope,
        scope.request(url, handler) is None,
        transports_requested(scope, url, handler, answers) == 0,
    decreases answers.len(),
{
    if answers.len() > 0 {
        lemma_provider_asks_once(scope, url, handler, answers.drop_first());
    }
}

/// Idempotent registration. Over the lifetime of a subtree, however often
/// its provider is invoked and however the construction goes, the transport
/// is asked for exactly once: by the first invocation.
pub proof fn lemma_registration_is_idempotent(
    url: Seq<char>,
    handler: HandlerKind,
    answers: Seq<Result<(), WebSocketErrorView>>,
)
    ensures
        transports_requested(ScopeView::Fresh, url, handler, answers) == if answers.len() == 0 {
            0nat
        } else {
            1nat
        },
{
    if answers.len() > 0 {
        let registration = ScopeView::Fresh.request(url, handler)->Some_0;
        let next = ScopeView::Fresh.entered().provided(registration, answers[0]);
        lemma_provider_asks_once(next, url, handler, answers.drop_first());
    }
}

/// JSON round trip. Let a codec decode what it encoded of `value` back to
/// `value`. Then the text that a connected context sends for `value` is its
/// encoding, unchanged, and a context with a JSON handler that receives this
/// text hands it to the decoder, unchanged, and delivers `value` to the handler.
pub proof fn lemma_json_round_trip<T>(
    sender: DioxusWsView,
    receiver: DioxusWsView,
    value: T,
    encode: spec_fn(T) -> Seq<char>,
    decode: spec_fn(Seq<char>) -> Result<T, Seq<char>>,
)
    requires
        sender.connected,
        receiver.handler == Some(HandlerKind::Json),
        decode(encode(value)) == Ok::<T, Seq<char>>(value),
    ensures
        sender.send(MessageView::Text(encode(value))) == Ok::<CommandView, SendErrorView>(
            CommandView::SendString(encode(value)),
        ),
        receiver.on_message(MessageView::Text(encode(value))) == InboundView::Decode(encode(value)),
        json_outcome_spec(decode(encode(value))) == Ok::<T, LogRecordView>(value),
{
}

/// A binary frame that reaches a JSON handler calls nothing and logs exactly
/// one record, at error level.
pub proof fn lemma_json_rejects_binary(ws: DioxusWsView, bytes: Seq<u8>)
    requires
        ws.handler == Some(HandlerKind::Json),
    ensures
        ws.on_message(MessageView::Binary(bytes)) == InboundView::Rejected(
            LogRecordView::binary_unsupported(),
        ),
        LogRecordView::binary_unsupported().level == Level::Error,
{
}

/// A binary frame that reaches a text handler calls nothing and logs nothing.
pub proof fn lemma_text_ignores_binary(ws: DioxusWsView, bytes: Seq<u8>)
    requires
        ws.handler == Some(HandlerKind::Text),
    ensures
        ws.on_message(MessageView::Binary(bytes)) == InboundView::Ignored,
{
}

/// A text frame that does not decode as the handler's type calls nothing and
/// logs exactly one record, at error level.
pub proof fn lemma_malformed_json_is_logged<T>(ws: DioxusWsView, text: Seq<char>, reason: Seq<char>)
    requires
        ws.handler == Some(HandlerKind::Json),
    ensures
        ws.on_message(MessageView::Text(text)) == InboundView::Decode(text),
        json_outcome_spec(Err::<T, Seq<char>>(reason)) == Err::<T, LogRecordView>(
            LogRecordView::decode_failed(reason),
        ),
        LogRecordView::decode_failed(reason).level == Level::Error,
{
}

} // verus!
