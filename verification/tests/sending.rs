use dioxus_websocket_hooks::connection::{Command, DioxusWs, LifecycleEvent};
use dioxus_websocket_hooks::connection::send_outcome;
use dioxus_websocket_hooks::error::{SendError, WebSocketError};
use dioxus_websocket_hooks::message::Message;
use dioxus_websocket_hooks::record::{Level, LogRecord};

/// A transport that counts what it is asked to send.
struct Transport {
    strings: Vec<String>,
    binaries: Vec<Vec<u8>>,
}

impl Transport {
    fn new() -> Transport {
        Transport { strings: Vec::new(), binaries: Vec::new() }
    }

    fn perform(&mut self, command: Command) -> Result<(), String> {
        match command {
            Command::SendString(text) => self.strings.push(text),
            Command::SendBinary(bytes) => self.binaries.push(bytes),
        }
        Ok(())
    }

    fn calls(&self) -> usize {
        self.strings.len() + self.binaries.len()
    }
}

/// Sends as a caller would: performs the command, collects what is to be logged.
fn drive(ws: &DioxusWs, transport: &mut Transport, logs: &mut Vec<LogRecord>, message: Message) {
    match ws.send(message) {
        Ok(command) => {
            if let Some(record) = send_outcome(transport.perform(command)) {
                logs.push(record);
            }
        }
        Err(error) => logs.push(error.log_record()),
    }
}

fn fresh(url: &str) -> DioxusWs {
    DioxusWs::new(url, Ok(())).unwrap()
}

#[test]
fn new_context_is_disconnected_and_bound_to_its_url() {
    let ws = fresh("wss://example/ws");
    assert_eq!(ws.url(), "wss://example/ws");
    assert!(!ws.is_connected());
    assert_eq!(ws.handler(), None);
}

#[test]
fn new_hands_back_a_failed_construction() {
    let failure = WebSocketError::ConnectionCreationError("Failed to connect".to_string());
    let made = DioxusWs::new("not a url", Err(failure.clone()));
    assert_eq!(made, Err(failure));
}

#[test]
fn send_text_before_connected_is_dropped_and_logged() {
    let ws = fresh("wss://example/ws");
    let mut transport = Transport::new();
    let mut logs = Vec::new();
    match ws.send_text("hi".to_string()) {
        Ok(command) => {
            let _ = transport.perform(command);
        }
        Err(error) => {
            assert_eq!(error, SendError::SocketNotConnected());
            logs.push(error.log_record());
        }
    }
    assert_eq!(transport.calls(), 0);
    assert_eq!(
        logs,
        vec![LogRecord {
            level: Level::Error,
            text: "WebSocket tried to send message when not connected.".to_string(),
        }]
    );
}

#[test]
fn send_text_after_connected_reaches_the_text_primitive_once() {
    let mut ws = fresh("wss://example/ws");
    ws.on_connection();
    assert!(ws.is_connected());
    assert_eq!(ws.send_text("hi".to_string()), Ok(Command::SendString("hi".to_string())));

    let mut transport = Transport::new();
    let mut logs = Vec::new();
    drive(&ws, &mut transport, &mut logs, Message::Text("hi".to_string()));
    assert_eq!(transport.strings, vec!["hi".to_string()]);
    assert!(transport.binaries.is_empty());
    assert!(logs.is_empty());
}

#[test]
fn send_text_after_close_is_dropped_and_logged() {
    let mut ws = fresh("wss://example/ws");
    let mut transport = Transport::new();
    let mut logs = Vec::new();
    ws.on_connection();
    logs.push(ws.on_close());
    assert!(!ws.is_connected());
    drive(&ws, &mut transport, &mut logs, Message::Text("hi".to_string()));
    assert_eq!(transport.calls(), 0);
    assert_eq!(
        logs,
        vec![
            LogRecord { level: Level::Info, text: "Websocket connection closed.".to_string() },
            LogRecord {
                level: Level::Error,
                text: "WebSocket tried to send message when not connected.".to_string(),
            },
        ]
    );
}

#[test]
fn binary_frames_reach_the_binary_primitive() {
    let mut ws = fresh("wss://example/ws");
    ws.on_connection();
    assert_eq!(ws.send(Message::Binary(vec![2, 15])), Ok(Command::SendBinary(vec![2, 15])));
    assert_eq!(ws.send(Message::Binary(Vec::new())), Ok(Command::SendBinary(Vec::new())));
    assert_eq!(ws.send(Message::Text(String::new())), Ok(Command::SendString(String::new())));
}

#[test]
fn send_json_forwards_the_encoding_as_text() {
    let mut ws = fresh("wss://example/ws");
    let json = serde_json::to_string(&vec![1u64, 2, 3]).unwrap();
    assert_eq!(ws.send_json(json.clone()), Err(SendError::SocketNotConnected()));
    ws.on_connection();
    assert_eq!(ws.send_json(json), Ok(Command::SendString("[1,2,3]".to_string())));
}

#[test]
fn a_refused_frame_is_logged_and_the_connection_stays_open() {
    let mut ws = fresh("wss://example/ws");
    ws.on_connection();
    assert_eq!(send_outcome(Ok(())), None);
    assert_eq!(
        send_outcome(Err("JsValue(InvalidStateError)".to_string())),
        Some(LogRecord {
            level: Level::Error,
            text: "Error when sending message on websocket: JsValue(InvalidStateError)"
                .to_string(),
        })
    );
    assert!(ws.is_connected());
    assert!(ws.send_text("again".to_string()).is_ok());
}

#[test]
fn send_error_comes_from_the_transport_rendering() {
    let error = SendError::from("JsValue(null)".to_string());
    assert_eq!(error, SendError::JsError("JsValue(null)".to_string()));
    assert_eq!(
        error.log_record(),
        LogRecord {
            level: Level::Error,
            text: "Error when sending message on websocket: JsValue(null)".to_string(),
        }
    );
    assert_eq!(
        SendError::SocketNotConnected().log_record(),
        LogRecord {
            level: Level::Error,
            text: "WebSocket tried to send message when not connected.".to_string(),
        }
    );
}

#[test]
fn a_transport_error_is_logged_and_leaves_the_flag() {
    let mut ws = fresh("wss://example/ws");
    let record = ws.on_error("ErrorEvent { obj: Event }");
    assert_eq!(
        record,
        LogRecord {
            level: Level::Error,
            text: "Web socket error: ErrorEvent { obj: Event }".to_string(),
        }
    );
    assert!(!ws.is_connected());
    ws.on_connection();
    let _ = ws.on_error("again");
    assert!(ws.is_connected());
    assert_eq!(
        ws.handle_event(LifecycleEvent::Error("boom".to_string())),
        Some(LogRecord { level: Level::Error, text: "Web socket error: boom".to_string() })
    );
    assert!(ws.is_connected());
}

#[test]
fn handle_event_logs_only_close_and_error() {
    let mut ws = fresh("wss://example/ws");
    assert_eq!(ws.handle_event(LifecycleEvent::Connected), None);
    assert!(ws.is_connected());
    assert_eq!(
        ws.handle_event(LifecycleEvent::Closed),
        Some(LogRecord { level: Level::Info, text: "Websocket connection closed.".to_string() })
    );
    assert!(!ws.is_connected());
}

/// The flag that the events should leave, computed the long way round.
fn expected_flag(events: &[LifecycleEvent]) -> bool {
    let mut i = 0;
    while i < events.len() {
        if events[i] == LifecycleEvent::Connected
            && events[i + 1..].iter().all(|later| *later != LifecycleEvent::Closed)
        {
            return true;
        }
        i += 1;
    }
    false
}

#[test]
fn send_goes_out_exactly_when_the_last_word_was_connected() {
    let alphabet = vec![
        LifecycleEvent::Connected,
        LifecycleEvent::Closed,
        LifecycleEvent::Error("e".to_string()),
    ];
    // every run of up to five events
    let mut runs: Vec<Vec<LifecycleEvent>> = vec![Vec::new()];
    let mut frontier: Vec<Vec<LifecycleEvent>> = vec![Vec::new()];
    for _ in 0..5 {
        let mut next = Vec::new();
        for run in &frontier {
            for event in &alphabet {
                let mut longer = run.clone();
                longer.push(event.clone());
                next.push(longer);
            }
        }
        runs.extend(next.iter().cloned());
        frontier = next;
    }
    assert_eq!(runs.len(), 1 + 3 + 9 + 27 + 81 + 243);
    for run in runs {
        let mut ws = fresh("wss://example/ws");
        for event in &run {
            let _ = ws.handle_event(event.clone());
        }
        let expected = expected_flag(&run);
        assert_eq!(ws.is_connected(), expected, "after {:?}", run);
        let out = ws.send_text("hi".to_string());
        if expected {
            assert_eq!(out, Ok(Command::SendString("hi".to_string())), "after {:?}", run);
        } else {
            assert_eq!(out, Err(SendError::SocketNotConnected()), "after {:?}", run);
        }
    }
}

#[test]
fn chosen_runs_of_events() {
    let connected = LifecycleEvent::Connected;
    let closed = LifecycleEvent::Closed;
    let error = LifecycleEvent::Error("x".to_string());
    let cases: Vec<(Vec<LifecycleEvent>, bool)> = vec![
        (vec![], false),
        (vec![connected.clone()], true),
        (vec![closed.clone()], false),
        (vec![error.clone()], false),
        (vec![connected.clone(), error.clone()], true),
        (vec![connected.clone(), error.clone(), closed.clone()], false),
        (vec![closed.clone(), connected.clone()], true),
        (vec![connected.clone(), closed.clone(), connected.clone()], true),
        (vec![connected.clone(), connected.clone(), closed.clone()], false),
    ];
    for (run, expected) in cases {
        let mut ws = fresh("wss://example/ws");
        for event in run {
            let _ = ws.handle_event(event);
        }
        assert_eq!(ws.is_connected(), expected);
        assert_eq!(ws.send(Message::Binary(vec![1])).is_ok(), expected);
    }
}

#[test]
fn construction_error_reads_as_one_line() {
    let error = WebSocketError::ConnectionCreationError("Failed to connect".to_string());
    assert_eq!(error.message(), "Failed to create websocket connection: Failed to connect");
}

#[test]
fn every_record_has_its_level_and_text() {
    assert_eq!(
        LogRecord::transport_error("kaputt"),
        LogRecord { level: Level::Error, text: "Web socket error: kaputt".to_string() }
    );
    assert_eq!(
        LogRecord::connection_closed(),
        LogRecord { level: Level::Info, text: "Websocket connection closed.".to_string() }
    );
    assert_eq!(
        LogRecord::send_failed(""),
        LogRecord {
            level: Level::Error,
            text: "Error when sending message on websocket: ".to_string(),
        }
    );
    assert_eq!(
        LogRecord::not_connected(),
        LogRecord {
            level: Level::Error,
            text: "WebSocket tried to send message when not connected.".to_string(),
        }
    );
    assert_eq!(
        LogRecord::create_failed("wss://example/ws", "no route"),
        LogRecord {
            level: Level::Error,
            text: "Error creating WebSocket for wss://example/ws: no route".to_string(),
        }
    );
    assert_eq!(
        LogRecord::decode_failed("EOF while parsing a value at line 1 column 0"),
        LogRecord {
            level: Level::Error,
            text: "Error while deserializing websocket response: EOF while parsing a value at line 1 column 0"
                .to_string(),
        }
    );
    assert_eq!(
        LogRecord::binary_unsupported(),
        LogRecord {
            level: Level::Error,
            text: "Error: binary websocket message unsupported".to_string(),
        }
    );
}

#[test]
fn the_crate_root_names_the_public_items() {
    let mut ws = dioxus_websocket_hooks::DioxusWs::new("wss://example/ws", Ok(())).unwrap();
    ws.on_connection();
    assert_eq!(
        ws.send(dioxus_websocket_hooks::Message::Text("hi".to_string())),
        Ok(dioxus_websocket_hooks::Command::SendString("hi".to_string()))
    );
    let mut scope = dioxus_websocket_hooks::Scope::new();
    assert!(dioxus_websocket_hooks::use_ws_context_provider(&mut scope, "wss://example/ws")
        .is_some());
    assert!(dioxus_websocket_hooks::use_ws_context_provider(&mut scope, "wss://example/ws")
        .is_none());
}
