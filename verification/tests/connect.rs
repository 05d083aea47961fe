use laurel_lsp::client::{Handshake, HandshakeEvent, LspClient, ProtocolCall, SaveReason};
use laurel_lsp::connect::{connect, dispatch, Connection, Effect, Step};
use laurel_lsp::diagnostics::ClientDiagnostics;
use laurel_lsp::error::LspClientError;
use laurel_lsp::message::{LspClientNotification, LspCommand, LspMessage, Synchronise};
use laurel_lsp::text::{Position, Range, WirePosition, WireRange};

fn started_client() -> LspClient {
    let mut handshake = Handshake::new("file:///work".to_string());
    handshake.advance(HandshakeEvent::Spawned);
    handshake.advance(HandshakeEvent::InitializeAnswered);
    handshake.advance(HandshakeEvent::Indexed);
    LspClient::initialize(handshake).expect("the handshake came to a good end")
}

fn connected() -> Connection {
    let mut connection = connect();
    assert_eq!(connection.initialized(Ok(started_client())), Some(LspMessage::Initialized));
    connection
}

fn open(uri: &str, text: &str) -> LspCommand {
    LspCommand::synchronise(Synchronise::DidOpen(text.to_string()), uri.to_string())
}

fn opened(uri: &str, text: &str) -> Effect {
    Effect::Call(ProtocolCall::DidOpen {
        uri: uri.to_string(),
        language_id: "rust",
        version: 0,
        text: text.to_string(),
    })
}

#[test]
fn a_new_connection_is_disconnected() {
    let connection = connect();
    assert_eq!(connection.next_step(), Step::Initialize);
    assert!(!connection.has_pending());
}

#[test]
fn initialization_connects() {
    let mut connection = connect();
    assert_eq!(connection.initialized(Ok(started_client())), Some(LspMessage::Initialized));
    assert_eq!(connection.next_step(), Step::Receive);
}

#[test]
fn failed_initialization_ends_the_connection() {
    let mut handshake = Handshake::new("file:///work".to_string());
    handshake.advance(HandshakeEvent::Spawned);
    handshake.advance(HandshakeEvent::InitializeAnswered);
    handshake.advance(HandshakeEvent::Closed("the server exited".to_string()));
    let outcome = LspClient::initialize(handshake);
    assert_eq!(
        outcome.as_ref().err(),
        Some(&LspClientError::ProcessFailure("the server exited".to_string()))
    );
    let mut connection = connect();
    assert_eq!(connection.next_step(), Step::Initialize);
    assert_eq!(connection.initialized(outcome), Some(LspMessage::Shutdown));
    assert_eq!(connection.next_step(), Step::Finish);
    assert_eq!(connection.initialized(Ok(started_client())), None);
    assert_eq!(connection.next_step(), Step::Finish);
}

#[test]
fn a_connection_settles_once() {
    let mut connection = connected();
    assert_eq!(
        connection.initialized(Err(LspClientError::FailedInitialization("late".to_string()))),
        None
    );
    assert_eq!(connection.next_step(), Step::Receive);
}

#[test]
fn nothing_is_routed_before_the_connection_stands() {
    let mut connection = connect();
    connection.enqueue(open("file:///a.rs", "fn main(){}"));
    assert!(connection.has_pending());
    assert_eq!(connection.receive_message(), vec![]);
    assert_eq!(connection.drain(), vec![]);
    assert!(connection.has_pending());
    assert_eq!(connection.initialized(Ok(started_client())), Some(LspMessage::Initialized));
    assert_eq!(connection.drain(), vec![opened("file:///a.rs", "fn main(){}")]);
    assert!(!connection.has_pending());
}

#[test]
fn commands_go_before_notifications() {
    let mut connection = connected();
    connection.notify(LspClientNotification::Progress);
    connection.enqueue(open("file:///a.rs", "fn main(){}"));
    connection.notify(LspClientNotification::ErrorMessage("oops".to_string()));
    connection.enqueue(LspCommand::synchronise(Synchronise::WillSave, "file:///a.rs".to_string()));
    assert_eq!(connection.receive_message(), vec![opened("file:///a.rs", "fn main(){}")]);
    assert_eq!(
        connection.receive_message(),
        vec![Effect::Call(ProtocolCall::WillSave {
            uri: "file:///a.rs".to_string(),
            reason: SaveReason::Manual
        })]
    );
    assert_eq!(
        connection.receive_message(),
        vec![Effect::Deliver(LspMessage::Notification(LspClientNotification::Progress))]
    );
    assert_eq!(
        connection.receive_message(),
        vec![Effect::Deliver(LspMessage::Notification(LspClientNotification::ErrorMessage(
            "oops".to_string()
        )))]
    );
    assert_eq!(connection.receive_message(), vec![]);
    assert!(!connection.has_pending());
}

#[test]
fn drain_routes_everything_in_order() {
    let mut connection = connected();
    let diagnostics = ClientDiagnostics { issues: vec![], uri: "file:///a.rs".to_string() };
    connection.notify(LspClientNotification::Diagnostics(diagnostics.clone()));
    connection.enqueue(open("file:///a.rs", "fn main(){}"));
    connection.enqueue(LspCommand::synchronise(
        Synchronise::DidChange(
            "x".to_string(),
            Range::new(Position::new(0, 3), Position::new(0, 7)),
        ),
        "file:///a.rs".to_string(),
    ));
    connection.enqueue(LspCommand::synchronise(Synchronise::DidSave(None), "file:///a.rs".to_string()));
    connection.enqueue(LspCommand::synchronise(Synchronise::DidClose, "file:///a.rs".to_string()));
    assert_eq!(
        connection.drain(),
        vec![
            opened("file:///a.rs", "fn main(){}"),
            Effect::Call(ProtocolCall::DidChange {
                uri: "file:///a.rs".to_string(),
                version: 1,
                range: WireRange {
                    start: WirePosition { line: 0, character: 3 },
                    end: WirePosition { line: 0, character: 7 },
                },
                text: "x".to_string(),
            }),
            Effect::Call(ProtocolCall::DidSave { uri: "file:///a.rs".to_string(), text: None }),
            Effect::Call(ProtocolCall::DidClose { uri: "file:///a.rs".to_string() }),
            Effect::Deliver(LspMessage::Notification(LspClientNotification::Diagnostics(diagnostics))),
        ]
    );
    assert!(!connection.has_pending());
    assert_eq!(connection.next_step(), Step::Receive);
}

#[test]
fn shutdown_ends_the_connection() {
    let mut connection = connected();
    connection.notify(LspClientNotification::Progress);
    connection.enqueue(open("file:///a.rs", "fn main(){}"));
    connection.enqueue(LspCommand::shutdown());
    connection.enqueue(open("file:///b.rs", "fn other(){}"));
    assert_eq!(
        connection.drain(),
        vec![
            opened("file:///a.rs", "fn main(){}"),
            Effect::Call(ProtocolCall::Shutdown),
            Effect::Call(ProtocolCall::Exit),
            Effect::Call(ProtocolCall::Stop),
        ]
    );
    assert_eq!(connection.next_step(), Step::Finish);
    assert!(connection.has_pending());
    assert_eq!(connection.receive_message(), vec![]);
}

#[test]
fn shutdown_twice_sends_exit_once() {
    let mut connection = connected();
    connection.enqueue(LspCommand::shutdown());
    connection.enqueue(LspCommand::shutdown());
    let mut effects = connection.drain();
    connection.enqueue(LspCommand::shutdown());
    effects.extend(connection.drain());
    effects.extend(connection.receive_message());
    let exits = effects.iter().filter(|effect| **effect == Effect::Call(ProtocolCall::Exit)).count();
    let shutdowns =
        effects.iter().filter(|effect| **effect == Effect::Call(ProtocolCall::Shutdown)).count();
    assert_eq!(exits, 1);
    assert_eq!(shutdowns, 1);
    assert_eq!(
        effects,
        vec![
            Effect::Call(ProtocolCall::Shutdown),
            Effect::Call(ProtocolCall::Exit),
            Effect::Call(ProtocolCall::Stop),
        ]
    );
    assert_eq!(connection.next_step(), Step::Finish);
}

#[test]
fn a_stopped_client_gets_no_calls() {
    let mut client = started_client();
    client.shutdown();
    let mut connection = connect();
    assert_eq!(connection.initialized(Ok(client)), Some(LspMessage::Initialized));
    connection.enqueue(open("file:///a.rs", "fn main(){}"));
    connection.notify(LspClientNotification::Initialized);
    assert_eq!(
        connection.drain(),
        vec![Effect::Deliver(LspMessage::Notification(LspClientNotification::Initialized))]
    );
}

#[test]
fn dispatch_maps_each_command_to_its_call() {
    let mut client = started_client();
    assert_eq!(
        dispatch(&mut client, open("file:///a.rs", "fn main(){}")),
        vec![ProtocolCall::DidOpen {
            uri: "file:///a.rs".to_string(),
            language_id: "rust",
            version: 0,
            text: "fn main(){}".to_string(),
        }]
    );
    assert_eq!(
        dispatch(
            &mut client,
            LspCommand::synchronise(
                Synchronise::DidSave(Some("text".to_string())),
                "file:///a.rs".to_string()
            )
        ),
        vec![ProtocolCall::DidSave {
            uri: "file:///a.rs".to_string(),
            text: Some("text".to_string())
        }]
    );
    assert!(client.running());
    assert_eq!(
        dispatch(&mut client, LspCommand::shutdown()),
        vec![ProtocolCall::Shutdown, ProtocolCall::Exit, ProtocolCall::Stop]
    );
    assert!(!client.running());
    assert_eq!(dispatch(&mut client, open("file:///a.rs", "fn main(){}")), vec![]);
    assert_eq!(dispatch(&mut client, LspCommand::shutdown()), vec![]);
}
