//! The client's side of the protocol: the calls made to the language server,
//! the handshake that starts it, and the barrier that holds the client back until
//! the server has indexed the workspace.

use vstd::prelude::*;
use vstd::string::StringExecFns;
use crate::diagnostics::{all_well_formed, ClientDiagnostics, WireDiagnostic};
use crate::error::{LspClientError, LspClientResult};
use crate::message::{LspClientNotification, SyncKind};
use crate::text::{WirePosition, WireRange};

verus! {

/// The language announced for every document that is opened.
pub const LANGUAGE: &'static str = "rust";

/// The progress token under which the server reports that it primes its caches.
pub const CACHE_PRIMING: &'static str = "rustAnalyzer/cachePriming";

/// The detail of the error returned for a call on a client that was shut down.
pub const SHUT_DOWN: &'static str = "the language server has been shut down";

/// The detail of the error returned where a client is asked for before the
/// handshake has come to an end.
pub const UNFINISHED: &'static str = "the handshake has not come to an end";

/// The version sent with a document that is opened.
pub const OPENED_VERSION: i32 = 0;

/// The version sent with every change.
pub const CHANGED_VERSION: i32 = 1;

/// Why a document is about to be saved.
#[derive(Clone, Copy, Debug, PartialEq, Eq, Structural)]
pub enum SaveReason {
    /// The user asked for it.
    Manual,
}

/// One call to the language server, with all that it carries.
#[derive(Debug, PartialEq, Eq)]
#[allow(inconsistent_fields)]
pub enum ProtocolCall {
    /// The request `initialize`: the workspace's root, and whether the client
    /// shows the progress of work done by the server.
    Initialize { root_uri: String, work_done_progress: bool },
    /// The notification `initialized`.
    Initialized,
    /// The request `shutdown`.
    Shutdown,
    /// The notification `exit`.
    Exit,
    /// Not sent to the server: the signal that ends the loop which drives the
    /// transport.
    Stop,
    /// The notification `textDocument/didOpen`.
    DidOpen { uri: String, language_id: &'static str, version: i32, text: String },
    /// The notification `textDocument/didChange`, with one change: the text in
    /// `range` is replaced by `text`.
    DidChange { uri: String, version: i32, range: WireRange, text: String },
    /// The notification `textDocument/didSave`.
    DidSave { uri: String, text: Option<String> },
    /// The notification `textDocument/didClose`.
    DidClose { uri: String },
    /// The notification `textDocument/willSave`.
    WillSave { uri: String, reason: SaveReason },
    /// The request `textDocument/hover`.
    Hover { uri: String, position: WirePosition },
}

impl ProtocolCall {
    /// For a call of document synchronisation, its kind and the URI of its document.
    pub open spec fn synchronises(self) -> Option<(SyncKind, Seq<char>)> {
        match self {
            ProtocolCall::DidOpen { uri, .. } => Some((SyncKind::Open, uri@)),
            ProtocolCall::DidChange { uri, .. } => Some((SyncKind::Change, uri@)),
            ProtocolCall::DidSave { uri, .. } => Some((SyncKind::Save, uri@)),
            ProtocolCall::DidClose { uri } => Some((SyncKind::Close, uri@)),
            ProtocolCall::WillSave { uri, .. } => Some((SyncKind::WillSave, uri@)),
            _ => None,
        }
    }
}

/// A running language server, as far as the client decides what is sent to it.
/// It is had from a handshake that came to a good end, and it cannot be used
/// again once it was shut down.
#[derive(Debug)]
pub struct LspClient {
    running: bool,
}

impl LspClient {
    /// Whether the server has not been shut down yet.
    pub closed spec fn is_running(self) -> bool {
        self.running
    }

    /// Whether `outcome` refuses a call because the server was shut down.
    pub open spec fn refused<T>(outcome: LspClientResult<T>) -> bool {
        outcome matches Err(LspClientError::ProcessFailure(detail)) && detail@ == SHUT_DOWN@
    }

    /// What a call on this client comes to: the call itself while the server
    /// runs, a refusal once it was shut down.
    pub open spec fn answers(self, outcome: LspClientResult<ProtocolCall>, call: ProtocolCall) -> bool {
        if self.is_running() {
            outcome == Ok::<ProtocolCall, LspClientError>(call)
        } else {
            LspClient::refused(outcome)
        }
    }

    /// Tells whether the server has not been shut down yet.
    pub fn running(&self) -> (running: bool)
        ensures
            running == self.is_running(),
    {
        self.running
    }

    fn refuse<T>() -> (outcome: LspClientResult<T>)
        ensures
            LspClient::refused(outcome),
    {
        Err(LspClientError::ProcessFailure(String::from_str(SHUT_DOWN)))
    }

    /// Ends the session: the request `shutdown`, then the notification `exit`,
    /// then the signal that stops the transport's loop. On a client that was
    /// shut down already nothing is sent again.
    pub fn shutdown(&mut self) -> (calls: Vec<ProtocolCall>)
        ensures
            !final(self).is_running(),
            old(self).is_running() ==> calls@ == seq![
                ProtocolCall::Shutdown,
                ProtocolCall::Exit,
                ProtocolCall::Stop,
            ],
            !old(self).is_running() ==> calls@ == Seq::<ProtocolCall>::empty(),
    {
        let mut calls: Vec<ProtocolCall> = Vec::new();
        if self.running {
            self.running = false;
            calls.push(ProtocolCall::Shutdown);
            calls.push(ProtocolCall::Exit);
            calls.push(ProtocolCall::Stop);
            assert(calls@ =~= seq![ProtocolCall::Shutdown, ProtocolCall::Exit, ProtocolCall::Stop]);
        }
        calls
    }

    /// The text in `range` of the document was replaced by `changed_to`. The
    /// range and the text are sent as they are given.
    pub fn did_change(&self, uri: String, range: WireRange, changed_to: String) -> (outcome:
        LspClientResult<ProtocolCall>)
        ensures
            self.answers(
                outcome,
                ProtocolCall::DidChange { uri, version: CHANGED_VERSION, range, text: changed_to },
            ),
    {
        if self.running {
            Ok(ProtocolCall::DidChange { uri, version: CHANGED_VERSION, range, text: changed_to })
        } else {
            LspClient::refuse()
        }
    }

    /// The document was opened; its whole text is sent.
    pub fn did_open(&self, uri: String, text: String) -> (outcome: LspClientResult<ProtocolCall>)
        ensures
            self.answers(
                outcome,
                ProtocolCall::DidOpen { uri, language_id: LANGUAGE, version: OPENED_VERSION, text },
            ),
    {
        if self.running {
            Ok(ProtocolCall::DidOpen { uri, language_id: LANGUAGE, version: OPENED_VERSION, text })
        } else {
            LspClient::refuse()
        }
    }

    /// The document was saved.
    pub fn did_save(&self, uri: String, text: Option<String>) -> (outcome: LspClientResult<
        ProtocolCall,
    >)
        ensures
            self.answers(outcome, ProtocolCall::DidSave { uri, text }),
    {
        if self.running {
            Ok(ProtocolCall::DidSave { uri, text })
        } else {
            LspClient::refuse()
        }
    }

    /// The document was closed.
    pub fn did_close(&self, uri: String) -> (outcome: LspClientResult<ProtocolCall>)
        ensures
            self.answers(outcome, ProtocolCall::DidClose { uri }),
    {
        if self.running {
            Ok(ProtocolCall::DidClose { uri })
        } else {
            LspClient::refuse()
        }
    }

    /// The document is about to be saved, because the user asked for it.
    pub fn will_save(&self, uri: String) -> (outcome: LspClientResult<ProtocolCall>)
        ensures
            self.answers(outcome, ProtocolCall::WillSave { uri, reason: SaveReason::Manual }),
    {
        if self.running {
            Ok(ProtocolCall::WillSave { uri, reason: SaveReason::Manual })
        } else {
            LspClient::refuse()
        }
    }

    /// Asks what the server knows of the place `position` in the document.
    pub fn hover(&self, uri: String, position: WirePosition) -> (outcome: LspClientResult<
        ProtocolCall,
    >)
        ensures
            self.answers(outcome, ProtocolCall::Hover { uri, position }),
    {
        if self.running {
            Ok(ProtocolCall::Hover { uri, position })
        } else {
            LspClient::refuse()
        }
    }
}

/// The token under which the server reports the progress of some work.
#[derive(Debug, PartialEq, Eq)]
pub enum ProgressToken {
    Number(i32),
    Text(String),
}

/// The stage that a report of progress is about.
#[derive(Clone, Copy, Debug, PartialEq, Eq, Structural)]
pub enum WorkDone {
    Begin,
    Report,
    End,
}

/// What a report of progress did to the barrier.
#[derive(Clone, Copy, Debug, PartialEq, Eq, Structural)]
pub enum BarrierSignal {
    /// The report was not the end of the priming of the caches.
    Ignored,
    /// The report opened the barrier.
    Released,
    /// The report would have opened the barrier, but it was open already: worth a warning.
    Repeated,
}

/// Whether a report of progress says that the server has primed its caches.
pub open spec fn ends_priming(token: ProgressToken, stage: WorkDone) -> bool {
    token matches ProgressToken::Text(name) && name@ == CACHE_PRIMING@ && stage == WorkDone::End
}

/// What a report of progress does to a barrier that is open (`indexed`) or shut.
pub open spec fn barrier_signal(indexed: bool, token: ProgressToken, stage: WorkDone) -> BarrierSignal {
    if !ends_priming(token, stage) {
        BarrierSignal::Ignored
    } else if indexed {
        BarrierSignal::Repeated
    } else {
        BarrierSignal::Released
    }
}

/// How often the barrier is opened by a run of reports, on a barrier that is open
/// (`indexed`) or shut when the run starts.
pub open spec fn releases(indexed: bool, reports: Seq<(ProgressToken, WorkDone)>) -> nat
    decreases reports.len(),
{
    if reports.len() == 0 {
        0
    } else {
        let (token, stage) = reports[0];
        let now: nat = if barrier_signal(indexed, token, stage) == BarrierSignal::Released {
            1
        } else {
            0
        };
        now + releases(indexed || ends_priming(token, stage), reports.drop_first())
    }
}

/// Whatever reports come in, and however many of them tell the end of the
/// priming, the barrier opens once if one of them does and never otherwise; a
/// barrier that is open does not open again.
pub proof fn lemma_barrier_opens_once(reports: Seq<(ProgressToken, WorkDone)>)
    ensures
        releases(true, reports) == 0,
        releases(false, reports) <= 1,
        releases(false, reports) == 1 <==> exists|i: int|
            0 <= i < reports.len() && ends_priming((#[trigger] reports[i]).0, reports[i].1),
    decreases reports.len(),
{
    if reports.len() > 0 {
        let rest = reports.drop_first();
        lemma_barrier_opens_once(rest);
        assert forall|i: int| 0 <= i < rest.len() implies rest[i] == reports[i + 1] by {}
        let (token, stage) = reports[0];
        if ends_priming(token, stage) {
            assert(ends_priming(reports[0].0, reports[0].1));
        } else {
            if releases(false, reports) == 1 {
                let i = choose|i: int|
                    0 <= i < rest.len() && ends_priming((#[trigger] rest[i]).0, rest[i].1);
                assert(ends_priming(reports[i + 1].0, reports[i + 1].1));
            }
            if exists|i: int|
                0 <= i < reports.len() && ends_priming((#[trigger] reports[i]).0, reports[i].1) {
                let i = choose|i: int|
                    0 <= i < reports.len() && ends_priming((#[trigger] reports[i]).0, reports[i].1);
                assert(i > 0);
                assert(ends_priming(rest[i - 1].0, rest[i - 1].1));
            }
        }
    }
}

/// What the client keeps while it listens to the server: whether the barrier that
/// waits for the server's index has been opened.
#[derive(Debug)]
pub struct LspClientState {
    indexed: bool,
}

impl LspClientState {
    /// Whether the barrier has been opened.
    pub closed spec fn is_indexed(self) -> bool {
        self.indexed
    }

    /// A state whose barrier is shut.
    pub fn new() -> (state: LspClientState)
        ensures
            !state.is_indexed(),
    {
        LspClientState { indexed: false }
    }

    /// Tells whether the barrier has been opened.
    pub fn indexed(&self) -> (indexed: bool)
        ensures
            indexed == self.is_indexed(),
    {
        self.indexed
    }

    /// Takes a report of progress. The end of the priming of the caches opens
    /// the barrier, the first time; later ends are told apart as repeated. Any
    /// other report leaves the barrier as it is.
    pub fn progress(&mut self, token: &ProgressToken, stage: WorkDone) -> (signal: BarrierSignal)
        ensures
            signal == barrier_signal(old(self).is_indexed(), *token, stage),
            final(self).is_indexed() == (old(self).is_indexed() || ends_priming(*token, stage)),
    {
        let priming = match token {
            ProgressToken::Text(name) => *name == String::from_str(CACHE_PRIMING),
            ProgressToken::Number(_) => false,
        };
        if priming && stage == WorkDone::End {
            if self.indexed {
                BarrierSignal::Repeated
            } else {
                self.indexed = true;
                BarrierSignal::Released
            }
        } else {
            BarrierSignal::Ignored
        }
    }

    /// Takes the diagnostics that the server published for a document and
    /// makes of them the notification for the user interface.
    pub fn publish_diagnostics(&self, uri: String, diagnostics: &Vec<WireDiagnostic>) -> (notification:
        LspClientNotification)
        requires
            all_well_formed(diagnostics@),
        ensures
            notification matches LspClientNotification::Diagnostics(set) && set.stands_for(
                uri,
                diagnostics@,
            ),
    {
        LspClientNotification::Diagnostics(ClientDiagnostics::from_wire(uri, diagnostics))
    }
}

/// How far the start of the server has come.
#[derive(Debug, PartialEq, Eq)]
pub enum Phase {
    /// The server's process is being started.
    Spawning,
    /// The request `initialize` was sent and its answer is awaited.
    Negotiating,
    /// The handshake is done and the server's index is awaited.
    Indexing,
    /// The server is ready for use.
    Ready,
    /// The start has failed, for the reason given.
    Failed(LspClientError),
}

/// What happened while the server was started.
#[derive(Debug, PartialEq, Eq)]
pub enum HandshakeEvent {
    /// The server's process runs.
    Spawned,
    /// The server's process could not be started.
    SpawnFailed(String),
    /// The server answered the request `initialize`.
    InitializeAnswered,
    /// The request `initialize` failed.
    InitializeFailed(String),
    /// The barrier was opened: the server has indexed the workspace.
    Indexed,
    /// The server's process has ended, or the transport to it was closed.
    Closed(String),
}

impl Phase {
    /// Whether the start is still under way.
    pub open spec fn pending(self) -> bool {
        self is Spawning || self is Negotiating || self is Indexing
    }

    /// The phase that follows when `event` happens in this phase, where
    /// `indexed` tells whether the barrier was opened before.
    pub open spec fn after(self, indexed: bool, event: HandshakeEvent) -> Phase {
        match (self, event) {
            (Phase::Spawning, HandshakeEvent::Spawned) => Phase::Negotiating,
            (Phase::Spawning, HandshakeEvent::SpawnFailed(detail)) => Phase::Failed(
                LspClientError::FailedInitialization(detail),
            ),
            (Phase::Negotiating, HandshakeEvent::InitializeAnswered) => if indexed {
                Phase::Ready
            } else {
                Phase::Indexing
            },
            (Phase::Negotiating, HandshakeEvent::InitializeFailed(detail)) => Phase::Failed(
                LspClientError::FailedInitialization(detail),
            ),
            (Phase::Indexing, HandshakeEvent::Indexed) => Phase::Ready,
            (Phase::Spawning, HandshakeEvent::Closed(detail)) => Phase::Failed(
                LspClientError::ProcessFailure(detail),
            ),
            (Phase::Negotiating, HandshakeEvent::Closed(detail)) => Phase::Failed(
                LspClientError::ProcessFailure(detail),
            ),
            (Phase::Indexing, HandshakeEvent::Closed(detail)) => Phase::Failed(
                LspClientError::ProcessFailure(detail),
            ),
            (phase, _) => phase,
        }
    }
}

/// The start of a language server, step by step: the process is started, the
/// request `initialize` is sent and answered, the notification `initialized` is
/// sent, and the server's index is awaited.
#[derive(Debug)]
pub struct Handshake {
    root_uri: String,
    phase: Phase,
    indexed: bool,
}

impl Handshake {
    /// How far the start has come.
    pub closed spec fn phase(self) -> Phase {
        self.phase
    }

    /// Whether the barrier was opened.
    pub closed spec fn indexed(self) -> bool {
        self.indexed
    }

    /// The root of the workspace that the server is started for.
    pub closed spec fn root_uri(self) -> String {
        self.root_uri
    }

    /// What is sent to the server when `event` happens.
    pub open spec fn reply(self, event: HandshakeEvent) -> Option<ProtocolCall> {
        match (self.phase(), event) {
            (Phase::Spawning, HandshakeEvent::Spawned) => Some(
                ProtocolCall::Initialize { root_uri: self.root_uri(), work_done_progress: true },
            ),
            (Phase::Negotiating, HandshakeEvent::InitializeAnswered) => Some(
                ProtocolCall::Initialized,
            ),
            _ => None,
        }
    }

    /// The start of a server for the workspace under `root_uri`, before anything was done.
    pub fn new(root_uri: String) -> (handshake: Handshake)
        ensures
            handshake.phase() == Phase::Spawning,
            !handshake.indexed(),
            handshake.root_uri() == root_uri,
    {
        Handshake { root_uri, phase: Phase::Spawning, indexed: false }
    }

    /// Tells whether the start is still under way.
    pub fn is_pending(&self) -> (pending: bool)
        ensures
            pending == self.phase().pending(),
    {
        match &self.phase {
            Phase::Spawning => true,
            Phase::Negotiating => true,
            Phase::Indexing => true,
            Phase::Ready => false,
            Phase::Failed(_) => false,
        }
    }

    /// Takes what happened and tells what is to be sent to the server now.
    /// The opening of the barrier is remembered whenever it comes, so that a
    /// server that has indexed before it answered is ready with its answer.
    pub fn advance(&mut self, event: HandshakeEvent) -> (call: Option<ProtocolCall>)
        ensures
            final(self).phase() == old(self).phase().after(old(self).indexed(), event),
            final(self).indexed() == (old(self).indexed() || event is Indexed),
            final(self).root_uri() == old(self).root_uri(),
            call == old(self).reply(event),
    {
        let mut call: Option<ProtocolCall> = None;
        let mut next: Option<Phase> = None;
        match &self.phase {
            Phase::Spawning => {
                match event {
                    HandshakeEvent::Spawned => {
                        call = Some(
                            ProtocolCall::Initialize {
                                root_uri: self.root_uri.clone(),
                                work_done_progress: true,
                            },
                        );
                        next = Some(Phase::Negotiating);
                    },
                    HandshakeEvent::SpawnFailed(detail) => {
                        next = Some(Phase::Failed(LspClientError::FailedInitialization(detail)));
                    },
                    HandshakeEvent::Closed(detail) => {
                        next = Some(Phase::Failed(LspClientError::ProcessFailure(detail)));
                    },
                    HandshakeEvent::Indexed => {
                        self.indexed = true;
                    },
                    _ => {},
                }
            },
            Phase::Negotiating => {
                match event {
                    HandshakeEvent::InitializeAnswered => {
                        call = Some(ProtocolCall::Initialized);
                        if self.indexed {
                            next = Some(Phase::Ready);
                        } else {
                            next = Some(Phase::Indexing);
                        }
                    },
                    HandshakeEvent::InitializeFailed(detail) => {
                        next = Some(Phase::Failed(LspClientError::FailedInitialization(detail)));
                    },
                    HandshakeEvent::Closed(detail) => {
                        next = Some(Phase::Failed(LspClientError::ProcessFailure(detail)));
                    },
                    HandshakeEvent::Indexed => {
                        self.indexed = true;
                    },
                    _ => {},
                }
            },
            Phase::Indexing => {
                match event {
                    HandshakeEvent::Indexed => {
                        self.indexed = true;
                        next = Some(Phase::Ready);
                    },
                    HandshakeEvent::Closed(detail) => {
                        next = Some(Phase::Failed(LspClientError::ProcessFailure(detail)));
                    },
                    _ => {},
                }
            },
            _ => {
                match event {
                    HandshakeEvent::Indexed => {
                        self.indexed = true;
                    },
                    _ => {},
                }
            },
        }
        match next {
            Some(phase) => {
                self.phase = phase;
            },
            None => {},
        }
        call
    }
}

impl LspClient {
    /// What a handshake has come to: a running client where the server is
    /// ready, the failure where the start has failed, and a failed
    /// initialization where the start is still under way.
    pub open spec fn started(handshake: Handshake, outcome: LspClientResult<LspClient>) -> bool {
        match handshake.phase() {
            Phase::Ready => outcome matches Ok(client) && client.is_running(),
            Phase::Failed(error) => outcome == Err::<LspClient, LspClientError>(error),
            _ => outcome matches Err(LspClientError::FailedInitialization(detail)) && detail@
                == UNFINISHED@,
        }
    }

    /// Ends a handshake: hands out the client if the server is ready, and the
    /// reason why there is none otherwise.
    pub fn initialize(handshake: Handshake) -> (outcome: LspClientResult<LspClient>)
        ensures
            LspClient::started(handshake, outcome),
    {
        match handshake.phase {
            Phase::Ready => Ok(LspClient { running: true }),
            Phase::Failed(error) => Err(error),
            _ => Err(LspClientError::FailedInitialization(String::from_str(UNFINISHED))),
        }
    }
}

} // verus!
