use vstd::prelude::*;

verus! {

/// A chat line as the user interface shows it.
#[derive(Clone, Debug)]
pub struct TwitchMessage {
    pub message_id: String,
    pub username: String,
    pub message: String,
    pub color: Option<SerializeRBGColor>,
}

/// A chatter's name color, as red, green and blue.
#[derive(Clone, Copy, Debug, PartialEq, Eq, Structural)]
pub struct SerializeRBGColor(pub u8, pub u8, pub u8);

/// How much attention a notice for the streamer asks for.
#[derive(Clone, Copy, Debug, PartialEq, Eq, Structural)]
pub enum Alert {
    /// System messages that are ephemeral.
    System,
    /// Normal messages given to the streamer.
    Info,
    /// Warnings that something happened.
    Warn,
    /// Recoverable errors that happened in the app.
    Error,
}

/// The notes of one released version.
#[derive(Clone, Copy, Debug)]
pub struct ChangelogVersionNotes {
    pub version: &'static str,
    pub title: Option<&'static str>,
    pub notes: &'static str,
}

/// Why a file of stored data could not be written.
#[derive(Clone, Copy, Debug, PartialEq, Eq, Structural)]
pub enum WriteFileError {
    FailedCreateFile,
    FailedConvertJSON,
    FailedWriteFile,
}

/// Progress of an update download, as reported to the user interface.
#[derive(Clone, Copy, Debug, PartialEq, Eq, Structural)]
pub enum DownloadEvent {
    Started { content_length: Option<u64> },
    Progress { chunk_length: usize },
    Finished,
}

/// The versions involved in an available update.
#[derive(Clone, Debug)]
pub struct UpdateMetadata {
    pub version: String,
    pub current_version: String,
}

} // verus!
