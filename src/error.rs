//! The failures of an update.
use vstd::prelude::*;

verus! {

/// The error of a failed transfer, as the HTTP client reports it.
#[verifier::external_type_specification]
#[verifier::external_body]
pub struct ExReqwestError(reqwest::Error);

/// The error of a byte buffer that is not valid UTF-8.
#[verifier::external_type_specification]
#[verifier::external_body]
pub struct ExFromUtf8Error(std::string::FromUtf8Error);

/// Every way in which an update can fail.
#[derive(Debug)]
pub enum UpdaterError {
    /// The network or HTTP layer failed.
    Transport(reqwest::Error),
    /// The local executable could not be started.
    ProcessInvocation,
    /// The executable's output is not valid text.
    TextDecoding(std::string::FromUtf8Error),
    /// The text holds no version announcement.
    PatternNotFound,
    /// The server did not declare the length of the download.
    SizeUnknown,
    /// The bytes written differ from the declared length.
    IncompleteDownload,
    /// The destination file could not be created.
    Filesystem,
}

impl From<reqwest::Error> for UpdaterError {
    fn from(err: reqwest::Error) -> (r: UpdaterError)
        ensures
            r == UpdaterError::Transport(err),
    {
        UpdaterError::Transport(err)
    }
}

impl vstd::std_specs::convert::FromSpecImpl<reqwest::Error> for UpdaterError {
    open spec fn obeys_from_spec() -> bool {
        true
    }

    open spec fn from_spec(err: reqwest::Error) -> UpdaterError {
        UpdaterError::Transport(err)
    }
}

impl From<std::string::FromUtf8Error> for UpdaterError {
    fn from(err: std::string::FromUtf8Error) -> (r: UpdaterError)
        ensures
            r == UpdaterError::TextDecoding(err),
    {
        UpdaterError::TextDecoding(err)
    }
}

impl vstd::std_specs::convert::FromSpecImpl<std::string::FromUtf8Error> for UpdaterError {
    open spec fn obeys_from_spec() -> bool {
        true
    }

    open spec fn from_spec(err: std::string::FromUtf8Error) -> UpdaterError {
        UpdaterError::TextDecoding(err)
    }
}

} // verus!
