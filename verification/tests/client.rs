use laurel_lsp::client::{
    BarrierSignal, Handshake, HandshakeEvent, LspClient, LspClientState, ProgressToken,
    ProtocolCall, SaveReason, WorkDone,
};
use laurel_lsp::diagnostics::{ClientDiagnostics, Issue, Severity, WireDiagnostic};
use laurel_lsp::error::LspClientError;
use laurel_lsp::message::LspClientNotification;
use laurel_lsp::text::{Position, Range, WirePosition, WireRange};

fn ready_client() -> LspClient {
    let mut handshake = Handshake::new("file:///work".to_string());
    handshake.advance(HandshakeEvent::Spawned);
    handshake.advance(HandshakeEvent::InitializeAnswered);
    handshake.advance(HandshakeEvent::Indexed);
    LspClient::initialize(handshake).expect("the handshake came to a good end")
}

fn priming() -> ProgressToken {
    ProgressToken::Text("rustAnalyzer/cachePriming".to_string())
}

#[test]
fn handshake_sends_initialize_then_initialized() {
    let mut handshake = Handshake::new("file:///work".to_string());
    assert!(handshake.is_pending());
    assert_eq!(
        handshake.advance(HandshakeEvent::Spawned),
        Some(ProtocolCall::Initialize {
            root_uri: "file:///work".to_string(),
            work_done_progress: true
        })
    );
    assert!(handshake.is_pending());
    assert_eq!(
        handshake.advance(HandshakeEvent::InitializeAnswered),
        Some(ProtocolCall::Initialized)
    );
    assert!(handshake.is_pending());
    assert_eq!(handshake.advance(HandshakeEvent::Indexed), None);
    assert!(!handshake.is_pending());
    let client = LspClient::initialize(handshake).expect("ready");
    assert!(client.running());
}

#[test]
fn handshake_waits_for_the_index() {
    let mut handshake = Handshake::new("file:///work".to_string());
    handshake.advance(HandshakeEvent::Spawned);
    handshake.advance(HandshakeEvent::InitializeAnswered);
    assert!(handshake.is_pending());
    match LspClient::initialize(handshake) {
        Err(LspClientError::FailedInitialization(detail)) => {
            assert_eq!(detail, "the handshake has not come to an end")
        }
        other => panic!("unexpected outcome: {:?}", other.map(|client| client.running())),
    }
}

#[test]
fn handshake_remembers_an_early_index() {
    let mut handshake = Handshake::new("file:///work".to_string());
    handshake.advance(HandshakeEvent::Spawned);
    assert_eq!(handshake.advance(HandshakeEvent::Indexed), None);
    assert!(handshake.is_pending());
    assert_eq!(
        handshake.advance(HandshakeEvent::InitializeAnswered),
        Some(ProtocolCall::Initialized)
    );
    assert!(!handshake.is_pending());
    assert!(LspClient::initialize(handshake).is_ok());
}

#[test]
fn spawn_failure_is_a_failed_initialization() {
    let mut handshake = Handshake::new("file:///work".to_string());
    assert_eq!(handshake.advance(HandshakeEvent::SpawnFailed("no such file".to_string())), None);
    assert!(!handshake.is_pending());
    assert_eq!(
        LspClient::initialize(handshake).err(),
        Some(LspClientError::FailedInitialization("no such file".to_string()))
    );
}

#[test]
fn refused_initialize_is_a_failed_initialization() {
    let mut handshake = Handshake::new("file:///work".to_string());
    handshake.advance(HandshakeEvent::Spawned);
    assert_eq!(handshake.advance(HandshakeEvent::InitializeFailed("bad request".to_string())), None);
    assert_eq!(
        LspClient::initialize(handshake).err(),
        Some(LspClientError::FailedInitialization("bad request".to_string()))
    );
}

#[test]
fn exit_before_the_index_is_a_process_failure() {
    let mut handshake = Handshake::new("file:///work".to_string());
    handshake.advance(HandshakeEvent::Spawned);
    handshake.advance(HandshakeEvent::InitializeAnswered);
    assert_eq!(handshake.advance(HandshakeEvent::Closed("the server exited".to_string())), None);
    assert!(!handshake.is_pending());
    assert_eq!(
        LspClient::initialize(handshake).err(),
        Some(LspClientError::ProcessFailure("the server exited".to_string()))
    );
}

#[test]
fn a_failed_handshake_stays_failed() {
    let mut handshake = Handshake::new("file:///work".to_string());
    handshake.advance(HandshakeEvent::Closed("gone".to_string()));
    assert_eq!(handshake.advance(HandshakeEvent::Spawned), None);
    assert_eq!(handshake.advance(HandshakeEvent::InitializeAnswered), None);
    assert_eq!(handshake.advance(HandshakeEvent::Indexed), None);
    assert_eq!(
        LspClient::initialize(handshake).err(),
        Some(LspClientError::ProcessFailure("gone".to_string()))
    );
}

#[test]
fn events_out_of_turn_are_ignored() {
    let mut handshake = Handshake::new("file:///work".to_string());
    assert_eq!(handshake.advance(HandshakeEvent::InitializeAnswered), None);
    assert_eq!(handshake.advance(HandshakeEvent::InitializeFailed("x".to_string())), None);
    assert!(handshake.is_pending());
    assert_eq!(
        handshake.advance(HandshakeEvent::Spawned),
        Some(ProtocolCall::Initialize {
            root_uri: "file:///work".to_string(),
            work_done_progress: true
        })
    );
    assert_eq!(handshake.advance(HandshakeEvent::Spawned), None);
    assert_eq!(handshake.advance(HandshakeEvent::SpawnFailed("x".to_string())), None);
    assert!(handshake.is_pending());
}

#[test]
fn barrier_opens_once() {
    let mut state = LspClientState::new();
    assert!(!state.indexed());
    assert_eq!(state.progress(&priming(), WorkDone::Begin), BarrierSignal::Ignored);
    assert_eq!(state.progress(&priming(), WorkDone::Report), BarrierSignal::Ignored);
    assert!(!state.indexed());
    assert_eq!(state.progress(&priming(), WorkDone::End), BarrierSignal::Released);
    assert!(state.indexed());
    assert_eq!(state.progress(&priming(), WorkDone::End), BarrierSignal::Repeated);
    assert_eq!(state.progress(&priming(), WorkDone::End), BarrierSignal::Repeated);
    assert_eq!(state.progress(&priming(), WorkDone::Begin), BarrierSignal::Ignored);
    assert!(state.indexed());
}

#[test]
fn barrier_ignores_other_tokens() {
    let mut state = LspClientState::new();
    assert_eq!(
        state.progress(&ProgressToken::Text("rustAnalyzer/Fetching".to_string()), WorkDone::End),
        BarrierSignal::Ignored
    );
    assert_eq!(state.progress(&ProgressToken::Number(7), WorkDone::End), BarrierSignal::Ignored);
    assert_eq!(
        state.progress(&ProgressToken::Text("rustanalyzer/cachepriming".to_string()), WorkDone::End),
        BarrierSignal::Ignored
    );
    assert_eq!(state.progress(&ProgressToken::Text(String::new()), WorkDone::End), BarrierSignal::Ignored);
    assert!(!state.indexed());
}

#[test]
fn published_diagnostics_become_a_notification() {
    let state = LspClientState::new();
    let wires = vec![WireDiagnostic {
        range: WireRange {
            start: WirePosition { line: 0, character: 0 },
            end: WirePosition { line: 0, character: 3 },
        },
        severity: Some(1),
        code_description: None,
        message: "expected item".to_string(),
    }];
    let notification = state.publish_diagnostics("file:///a.rs".to_string(), &wires);
    assert_eq!(
        notification,
        LspClientNotification::Diagnostics(ClientDiagnostics {
            issues: vec![Issue {
                range: Range::new(Position::new(0, 0), Position::new(0, 3)),
                code_description: None,
                message: "expected item".to_string(),
                severity: Severity::Error,
            }],
            uri: "file:///a.rs".to_string(),
        })
    );
}

#[test]
fn did_open_sends_the_text_with_version_zero() {
    let client = ready_client();
    assert_eq!(
        client.did_open("file:///a.rs".to_string(), "fn main(){}".to_string()),
        Ok(ProtocolCall::DidOpen {
            uri: "file:///a.rs".to_string(),
            language_id: "rust",
            version: 0,
            text: "fn main(){}".to_string(),
        })
    );
}

#[test]
fn did_change_sends_range_and_text_with_version_one() {
    let client = ready_client();
    let range = WireRange {
        start: WirePosition { line: 1, character: 2 },
        end: WirePosition { line: 1, character: 6 },
    };
    assert_eq!(
        client.did_change("file:///a.rs".to_string(), range, "let".to_string()),
        Ok(ProtocolCall::DidChange {
            uri: "file:///a.rs".to_string(),
            version: 1,
            range,
            text: "let".to_string(),
        })
    );
}

#[test]
fn save_close_will_save_and_hover() {
    let client = ready_client();
    assert_eq!(
        client.did_save("file:///a.rs".to_string(), None),
        Ok(ProtocolCall::DidSave { uri: "file:///a.rs".to_string(), text: None })
    );
    assert_eq!(
        client.did_save("file:///a.rs".to_string(), Some("x".to_string())),
        Ok(ProtocolCall::DidSave { uri: "file:///a.rs".to_string(), text: Some("x".to_string()) })
    );
    assert_eq!(
        client.did_close("file:///a.rs".to_string()),
        Ok(ProtocolCall::DidClose { uri: "file:///a.rs".to_string() })
    );
    assert_eq!(
        client.will_save("file:///a.rs".to_string()),
        Ok(ProtocolCall::WillSave { uri: "file:///a.rs".to_string(), reason: SaveReason::Manual })
    );
    assert_eq!(
        client.hover("file:///a.rs".to_string(), WirePosition { line: 3, character: 4 }),
        Ok(ProtocolCall::Hover {
            uri: "file:///a.rs".to_string(),
            position: WirePosition { line: 3, character: 4 }
        })
    );
}

#[test]
fn shutdown_sends_shutdown_exit_stop_once() {
    let mut client = ready_client();
    assert_eq!(
        client.shutdown(),
        vec![ProtocolCall::Shutdown, ProtocolCall::Exit, ProtocolCall::Stop]
    );
    assert!(!client.running());
    assert_eq!(client.shutdown(), vec![]);
    assert!(!client.running());
}

#[test]
fn a_client_that_was_shut_down_refuses_calls() {
    let mut client = ready_client();
    client.shutdown();
    let refused = LspClientError::ProcessFailure("the language server has been shut down".to_string());
    assert_eq!(client.did_open("u".to_string(), "t".to_string()), Err(refused.clone()));
    assert_eq!(client.did_close("u".to_string()), Err(refused.clone()));
    assert_eq!(client.did_save("u".to_string(), None), Err(refused.clone()));
    assert_eq!(client.will_save("u".to_string()), Err(refused.clone()));
    assert_eq!(
        client.did_change(
            "u".to_string(),
            WireRange {
                start: WirePosition { line: 0, character: 0 },
                end: WirePosition { line: 0, character: 0 }
            },
            "t".to_string()
        ),
        Err(refused.clone())
    );
    assert_eq!(client.hover("u".to_string(), WirePosition { line: 0, character: 0 }), Err(refused));
}
