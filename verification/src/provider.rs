//! Registration of the connection context with a UI subtree: a provider that
//! runs once per subtree, and a lookup for the components below it.

use crate::connection::{logged, DioxusWs, DioxusWsView, HandlerKind};
use crate::error::{WebSocketError, WebSocketErrorView};
use crate::record::{LogRecord, LogRecordView};
use vstd::prelude::*;

verus! {

/// The provider's request to its caller: make a transport for `url`, and wire
/// a handler of form `handler` to it.
#[derive(Debug, Clone, PartialEq, Eq)]
pub struct Registration {
    pub url: String,
    pub handler: HandlerKind,
}

/// A [`Registration`] over sequences of characters.
pub struct RegistrationView {
    pub url: Seq<char>,
    pub handler: HandlerKind,
}

impl View for Registration {
    type V = RegistrationView;

    open spec fn view(&self) -> RegistrationView {
        RegistrationView { url: self.url@, handler: self.handler }
    }
}

/// What a UI subtree holds of the connection context during its lifetime.
#[derive(Debug, PartialEq, Eq)]
pub enum Scope {
    /// No provider has run yet.
    Fresh,
    /// A provider has run, and no context is registered.
    Vacant,
    /// The one registered context.
    Provided(DioxusWs),
}

/// A [`Scope`] as a mathematical value, with its transitions.
pub enum ScopeView {
    Fresh,
    Vacant,
    Provided(DioxusWsView),
}

impl View for Scope {
    type V = ScopeView;

    open spec fn view(&self) -> ScopeView {
        match self {
            Scope::Fresh => ScopeView::Fresh,
            Scope::Vacant => ScopeView::Vacant,
            Scope::Provided(ws) => ScopeView::Provided(ws@),
        }
    }
}

impl ScopeView {
    /// The scope after a provider has been invoked on it.
    pub open spec fn entered(self) -> ScopeView {
        if self is Fresh {
            ScopeView::Vacant
        } else {
            self
        }
    }

    /// What a provider invoked on this scope asks for: a transport on the
    /// first invocation, nothing on any later one.
    pub open spec fn request(self, url: Seq<char>, handler: HandlerKind) -> Option<
        RegistrationView,
    > {
        if self is Fresh {
            Some(RegistrationView { url, handler })
        } else {
            None
        }
    }

    /// The scope once the caller has reported how the construction that
    /// `registration` asked for went.
    pub open spec fn provided(
        self,
        registration: RegistrationView,
        opened: Result<(), WebSocketErrorView>,
    ) -> ScopeView {
        match opened {
            Ok(_) => ScopeView::Provided(
                DioxusWsView::create(registration.url).with_handler(registration.handler),
            ),
            Err(_) => self,
        }
    }

    /// What is logged when the caller reports how the construction went.
    pub open spec fn provided_log(
        registration: RegistrationView,
        opened: Result<(), WebSocketErrorView>,
    ) -> Option<LogRecordView> {
        match opened {
            Ok(_) => None,
            Err(error) => Some(LogRecordView::create_failed(registration.url, error.message())),
        }
    }
}

/// The view of what a provider asked for.
pub open spec fn requested(request: Option<Registration>) -> Option<RegistrationView> {
    match request {
        Some(registration) => Some(registration@),
        None => None,
    }
}

/// The view of how the construction of a transport went.
pub open spec fn opened_view(opened: Result<(), WebSocketError>) -> Result<
    (),
    WebSocketErrorView,
> {
    match opened {
        Ok(_) => Ok(()),
        Err(error) => Err(error@),
    }
}

impl Scope {
    /// The scope of a subtree that was just instantiated.
    pub fn new() -> (scope: Scope)
        ensures
            scope@ == ScopeView::Fresh,
    {
        Scope::Fresh
    }

    /// The registered context, if there is one.
    pub fn context(&self) -> (found: Option<&DioxusWs>)
        ensures
            match self@ {
                ScopeView::Provided(ws) => found is Some && found->Some_0@ == ws,
                _ => found is None,
            },
    {
        match self {
            Scope::Provided(ws) => Some(ws),
            _ => None,
        }
    }
}

/// Marks the scope as entered and, on a fresh scope only, asks for a
/// transport for `url` with a handler of form `handler`.
fn enter(cx: &mut Scope, url: &str, handler: HandlerKind) -> (request: Option<Registration>)
    ensures
        final(cx)@ == old(cx)@.entered(),
        requested(request) == old(cx)@.request(url@, handler),
{
    match cx {
        Scope::Fresh => {
            *cx = Scope::Vacant;
            Some(Registration { url: String::from_str(url), handler })
        },
        _ => None,
    }
}

/// Provides the context to the subtree, for a handler that takes every
/// inbound frame as it came. The first invocation on a scope asks the caller
/// for a transport; every later one asks for nothing and changes nothing.
pub fn use_ws_context_provider(cx: &mut Scope, url: &str) -> (request: Option<Registration>)
    ensures
        final(cx)@ == old(cx)@.entered(),
        requested(request) == old(cx)@.request(url@, HandlerKind::Raw),
{
    enter(cx, url, HandlerKind::Raw)
}

/// Provides the context to the subtree, for a handler that takes the payload
/// of text frames only.
pub fn use_ws_context_provider_text(cx: &mut Scope, url: &str) -> (request: Option<Registration>)
    ensures
        final(cx)@ == old(cx)@.entered(),
        requested(request) == old(cx)@.request(url@, HandlerKind::Text),
{
    enter(cx, url, HandlerKind::Text)
}

/// Provides the context to the subtree, for a handler that takes values
/// decoded from the JSON in text frames.
pub fn use_ws_context_provider_json(cx: &mut Scope, url: &str) -> (request: Option<Registration>)
    ensures
        final(cx)@ == old(cx)@.entered(),
        requested(request) == old(cx)@.request(url@, HandlerKind::Json),
{
    enter(cx, url, HandlerKind::Json)
}

/// Completes a registration with the caller's report on the transport. With a
/// transport, the subtree gets a new context for the registration's URL,
/// disconnected, with the registration's handler in its slot. Without one,
/// the scope stays as it was and the failure is logged.
pub fn provide_context(
    cx: &mut Scope,
    registration: Registration,
    opened: Result<(), WebSocketError>,
) -> (log: Option<LogRecord>)
    ensures
        final(cx)@ == old(cx)@.provided(registration@, opened_view(opened)),
        logged(log) == ScopeView::provided_log(registration@, opened_view(opened)),
{
    match DioxusWs::new(registration.url.as_str(), opened) {
        Ok(mut ws) => {
            ws.set_on_message(registration.handler);
            *cx = Scope::Provided(ws);
            None
        },
        Err(error) => {
            let reason = error.message();
            Some(LogRecord::create_failed(registration.url.as_str(), reason.as_str()))
        },
    }
}

/// The context that was provided to the subtree.
pub fn use_ws_context(cx: &Scope) -> (ws: &DioxusWs)
    requires
        cx@ is Provided,
    ensures
        ws@ == cx@->Provided_0,
{
    match cx {
        Scope::Provided(ws) => ws,
        _ => unreached(),
    }
}

} // verus!
