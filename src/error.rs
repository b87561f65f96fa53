use vstd::prelude::*;

verus! {

/// Every way a run can fail, carrying plain text only.
#[derive(Debug, Clone, PartialEq, Eq)]
pub enum PipedPlaylistImporterError {
    /// A directory entry's name is not valid text.
    FileName(String),
    /// The directory could not be listed: cause, directory.
    ListFiles(String, String),
    /// A file could not be read line by line: cause, path.
    ReadLines(String, String),
    /// A file could not be opened: cause.
    ReadFile(String),
    /// A successful response did not hold the expected JSON: cause.
    Deserialize(String),
    /// The host could not be reached: cause, url.
    ContactApi(String, String),
    /// A transport failure outside a specific url: cause.
    GeneralRequest(String),
    /// A non-success status with an unstructured body: status, url, body.
    Request(u16, String, String),
    /// A structured error reported by the remote service: its message.
    PipedError(String),
}

impl PipedPlaylistImporterError {
    /// Whether a run may go on after this error, attributing it to one video.
    pub open spec fn spec_is_recoverable(&self) -> bool {
        self is PipedError
    }

    pub fn is_recoverable(&self) -> (r: bool)
        ensures
            r == self.spec_is_recoverable(),
    {
        match self {
            PipedPlaylistImporterError::PipedError(_) => true,
            _ => false,
        }
    }
}

} // verus!
