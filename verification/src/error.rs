//! What can go wrong between the editor and the language server.

use vstd::prelude::*;
use vstd::string::StringExecFns;

verus! {

/// A failure of the language-server client, with the detail that was reported.
#[derive(Debug, PartialEq, Eq)]
pub enum LspClientError {
    /// The server could not be started, or the handshake with it failed.
    FailedInitialization(String),
    /// The server process or the transport to it failed.
    ProcessFailure(String),
    /// One end of a channel between the editor and the client has gone away.
    ChannelClosed(String),
}

pub type LspClientResult<T> = Result<T, LspClientError>;

impl LspClientError {
    /// The detail carried by the error.
    pub open spec fn detail(self) -> Seq<char> {
        match self {
            LspClientError::FailedInitialization(detail) => detail@,
            LspClientError::ProcessFailure(detail) => detail@,
            LspClientError::ChannelClosed(detail) => detail@,
        }
    }

    /// The words that introduce the detail in the error's text.
    pub open spec fn heading(self) -> Seq<char> {
        match self {
            LspClientError::FailedInitialization(_) => "Failed Initialization: `"@,
            LspClientError::ProcessFailure(_) => "Process Failure: `"@,
            LspClientError::ChannelClosed(_) => "Process Failure: `"@,
        }
    }

    /// The error's text: its heading, then the detail between backticks.
    pub open spec fn text(self) -> Seq<char> {
        self.heading() + self.detail() + "`"@
    }

    /// The error as a line for a log or a message box.
    pub fn describe(&self) -> (line: String)
        ensures
            line@ == self.text(),
    {
        let mut line = match self {
            LspClientError::FailedInitialization(_) => String::from_str("Failed Initialization: `"),
            LspClientError::ProcessFailure(_) => String::from_str("Process Failure: `"),
            LspClientError::ChannelClosed(_) => String::from_str("Process Failure: `"),
        };
        match self {
            LspClientError::FailedInitialization(detail) => line.append(detail.as_str()),
            LspClientError::ProcessFailure(detail) => line.append(detail.as_str()),
            LspClientError::ChannelClosed(detail) => line.append(detail.as_str()),
        }
        line.append("`");
        line
    }
}

impl Clone for LspClientError {
    fn clone(&self) -> (copy: Self)
        ensures
            copy == *self,
    {
        match self {
            LspClientError::FailedInitialization(detail) => LspClientError::FailedInitialization(
                detail.clone(),
            ),
            LspClientError::ProcessFailure(detail) => LspClientError::ProcessFailure(
                detail.clone(),
            ),
            LspClientError::ChannelClosed(detail) => LspClientError::ChannelClosed(detail.clone()),
        }
    }
}

} // verus!
