//! The messages that pass between the user interface and the task that owns
//! the connection to the language server.

use vstd::prelude::*;
use crate::diagnostics::ClientDiagnostics;
use crate::text::Range;

verus! {

/// A message from the connection to the user interface.
#[derive(Debug, PartialEq, Eq)]
pub enum LspMessage {
    /// The server is ready and commands are accepted from now on.
    Initialized,
    /// The connection has ended and will not come back.
    Shutdown,
    Response(LspResponse),
    Notification(LspClientNotification),
}

/// A message from the user interface to the connection.
#[derive(Debug, PartialEq, Eq)]
pub enum LspCommand {
    Request(LspRequest),
    Notification(LspServerNotification),
}

/// A notification sent from the server to the client.
#[derive(Debug, PartialEq, Eq)]
pub enum LspClientNotification {
    Diagnostics(ClientDiagnostics),
    Progress,
    ErrorMessage(String),
    Initialized,
    UnknownMessage,
}

/// A notification sent from the client to the server: an event of document
/// synchronisation and the URI of the document that it is about.
#[derive(Debug, PartialEq, Eq)]
pub enum LspServerNotification {
    Synchronise(Synchronise, String),
}

/// A request from the client to the server that requires a response.
#[derive(Clone, Copy, Debug, PartialEq, Eq, Structural)]
pub enum LspRequest {
    Shutdown,
}

/// The response to an [`LspRequest`].
#[derive(Clone, Copy, Debug, PartialEq, Eq, Structural)]
pub enum LspResponse {
    /// A response that carries nothing.
    Empty,
}

/// Messages for document synchronisation.
#[derive(Debug, PartialEq, Eq)]
pub enum Synchronise {
    /// The text in the given range was replaced by the given text.
    DidChange(String, Range),
    DidClose,
    /// The document was opened with the given text.
    DidOpen(String),
    /// The document was saved; the text may be sent along.
    DidSave(Option<String>),
    WillSave,
}

/// The five kinds of synchronisation events.
#[derive(Clone, Copy, Debug, PartialEq, Eq, Structural)]
pub enum SyncKind {
    Open,
    Change,
    WillSave,
    Save,
    Close,
}

impl Synchronise {
    pub open spec fn kind(self) -> SyncKind {
        match self {
            Synchronise::DidChange(_, _) => SyncKind::Change,
            Synchronise::DidClose => SyncKind::Close,
            Synchronise::DidOpen(_) => SyncKind::Open,
            Synchronise::DidSave(_) => SyncKind::Save,
            Synchronise::WillSave => SyncKind::WillSave,
        }
    }
}

impl LspCommand {
    /// A command that mirrors a document event to the server.
    pub fn synchronise(event: Synchronise, uri: String) -> (command: LspCommand)
        ensures
            command == LspCommand::Notification(LspServerNotification::Synchronise(event, uri)),
    {
        LspCommand::Notification(LspServerNotification::Synchronise(event, uri))
    }

    /// The command that asks for the connection to be shut down.
    pub fn shutdown() -> (command: LspCommand)
        ensures
            command == LspCommand::Request(LspRequest::Shutdown),
    {
        LspCommand::Request(LspRequest::Shutdown)
    }
}

impl Default for LspClientNotification {
    /// A notification of which nothing better is known.
    fn default() -> (notification: Self)
        ensures
            notification == LspClientNotification::UnknownMessage,
    {
        LspClientNotification::UnknownMessage
    }
}

impl Clone for Synchronise {
    fn clone(&self) -> (copy: Self)
        ensures
            copy == *self,
    {
        match self {
            Synchronise::DidChange(text, range) => Synchronise::DidChange(text.clone(), *range),
            Synchronise::DidClose => Synchronise::DidClose,
            Synchronise::DidOpen(text) => Synchronise::DidOpen(text.clone()),
            Synchronise::DidSave(text) => Synchronise::DidSave(
                match text {
                    Some(text) => Some(text.clone()),
                    None => None,
                },
            ),
            Synchronise::WillSave => Synchronise::WillSave,
        }
    }
}

impl Clone for LspServerNotification {
    fn clone(&self) -> (copy: Self)
        ensures
            copy == *self,
    {
        match self {
            LspServerNotification::Synchronise(event, uri) => LspServerNotification::Synchronise(
                event.clone(),
                uri.clone(),
            ),
        }
    }
}

impl Clone for LspCommand {
    fn clone(&self) -> (copy: Self)
        ensures
            copy == *self,
    {
        match self {
            LspCommand::Request(request) => LspCommand::Request(*request),
            LspCommand::Notification(notification) => LspCommand::Notification(
                notification.clone(),
            ),
        }
    }
}

impl LspClientNotification {
    /// Whether `other` says what this notification says: the same kind, and
    /// with it the same text, or the same issues for the same document.
    pub open spec fn same_as(self, other: LspClientNotification) -> bool {
        match (self, other) {
            (
                LspClientNotification::Diagnostics(mine),
                LspClientNotification::Diagnostics(theirs),
            ) => mine.uri == theirs.uri && mine.issues@ == theirs.issues@,
            (LspClientNotification::Progress, LspClientNotification::Progress) => true,
            (
                LspClientNotification::ErrorMessage(mine),
                LspClientNotification::ErrorMessage(theirs),
            ) => mine == theirs,
            (LspClientNotification::Initialized, LspClientNotification::Initialized) => true,
            (LspClientNotification::UnknownMessage, LspClientNotification::UnknownMessage) => true,
            _ => false,
        }
    }
}

impl Clone for LspClientNotification {
    fn clone(&self) -> (copy: Self)
        ensures
            self.same_as(copy),
    {
        match self {
            LspClientNotification::Diagnostics(set) => LspClientNotification::Diagnostics(
                set.clone(),
            ),
            LspClientNotification::Progress => LspClientNotification::Progress,
            LspClientNotification::ErrorMessage(text) => LspClientNotification::ErrorMessage(
                text.clone(),
            ),
            LspClientNotification::Initialized => LspClientNotification::Initialized,
            LspClientNotification::UnknownMessage => LspClientNotification::UnknownMessage,
        }
    }
}

impl Clone for LspMessage {
    fn clone(&self) -> (copy: Self)
        ensures
            match (*self, copy) {
                (LspMessage::Initialized, LspMessage::Initialized) => true,
                (LspMessage::Shutdown, LspMessage::Shutdown) => true,
                (LspMessage::Response(mine), LspMessage::Response(theirs)) => mine == theirs,
                (LspMessage::Notification(mine), LspMessage::Notification(theirs)) => mine.same_as(
                    theirs,
                ),
                _ => false,
            },
    {
        match self {
            LspMessage::Initialized => LspMessage::Initialized,
            LspMessage::Shutdown => LspMessage::Shutdown,
            LspMessage::Response(response) => LspMessage::Response(*response),
            LspMessage::Notification(notification) => LspMessage::Notification(
                notification.clone(),
            ),
        }
    }
}

} // verus!
