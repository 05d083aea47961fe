use laurel_lsp::error::LspClientError;
use laurel_lsp::file_path;
use laurel_lsp::fonts::{load, ICON};
use laurel_lsp::message::{
    LspClientNotification, LspCommand, LspRequest, LspServerNotification, Synchronise,
};

#[test]
fn error_texts() {
    assert_eq!(
        LspClientError::FailedInitialization("no server".to_string()).describe(),
        "Failed Initialization: `no server`"
    );
    assert_eq!(
        LspClientError::ProcessFailure("exit 1".to_string()).describe(),
        "Process Failure: `exit 1`"
    );
    assert_eq!(
        LspClientError::ChannelClosed("receiver dropped".to_string()).describe(),
        "Process Failure: `receiver dropped`"
    );
    assert_eq!(LspClientError::ProcessFailure(String::new()).describe(), "Process Failure: ``");
}

#[test]
fn error_clone_is_equal() {
    let error = LspClientError::ChannelClosed("x".to_string());
    assert_eq!(error.clone(), error);
    let other = LspClientError::FailedInitialization("y".to_string());
    assert_eq!(other.clone(), other);
    assert_ne!(error, LspClientError::ProcessFailure("x".to_string()));
}

#[test]
fn file_path_puts_the_scheme_first() {
    assert_eq!(file_path("/home/me/a.rs"), "file:///home/me/a.rs");
    assert_eq!(file_path(""), "file://");
    assert_eq!(file_path("/tmp/with space/ü.rs"), "file:///tmp/with space/ü.rs");
}

#[test]
fn fonts_hold_the_icon_font_alone() {
    let fonts = load(b"\x00\x01\x00\x00");
    assert_eq!(fonts.len(), 1);
    assert_eq!(fonts[0], &[0u8, 1, 0, 0][..]);
    assert_eq!(ICON, "lucide");
}

#[test]
fn command_builders() {
    assert_eq!(LspCommand::shutdown(), LspCommand::Request(LspRequest::Shutdown));
    assert_eq!(
        LspCommand::synchronise(Synchronise::DidSave(None), "file:///a.rs".to_string()),
        LspCommand::Notification(LspServerNotification::Synchronise(
            Synchronise::DidSave(None),
            "file:///a.rs".to_string()
        ))
    );
}

#[test]
fn default_notification_is_unknown() {
    assert_eq!(LspClientNotification::default(), LspClientNotification::UnknownMessage);
}
