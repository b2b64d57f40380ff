//! The error taxonomy exposed by the mirroring engine.
use vstd::prelude::*;

verus! {

/// Everything that can go wrong during a mirroring session.
#[derive(Debug, PartialEq)]
pub enum WscError {
    /// Creating the destination directory failed.
    ErrorCreatingDestinationDirectory(String),
    /// Reserved for HTML parse failures; the extractor is currently lenient.
    InvalidHtml(String),
    /// A worker failure or an unexpected condition.
    UnknownError(String),
    /// The destination directory disappeared mid-run; holds its path.
    DestinationDirectoryDoesNotExist(String),
    /// An open/read/write/truncate failure on `file_name`.
    FileOperationError { file_name: String, message: String },
    /// A transport-level failure during a request or mid-stream.
    NetworkError(String),
    /// The server answered with a 4xx/5xx status.
    ErrorStatusCode { status_code: String, url: String },
    /// The consumer closed the update channel.
    ChannelClosed,
    /// The seed URL could not be parsed.
    InvalidUrl(String),
}

impl WscError {
    /// Whether this error ends the whole session even when the rule says to
    /// keep going after a failed download.  Network and missing-directory
    /// failures, and a closed update channel, are never survivable.
    pub open spec fn always_fatal(&self) -> bool {
        match self {
            WscError::DestinationDirectoryDoesNotExist(_) => true,
            WscError::NetworkError(_) => true,
            WscError::ChannelClosed => true,
            _ => false,
        }
    }

    /// The abort policy for a failed asset download: always-fatal errors end
    /// the session; everything else ends it only when the rule asks for that.
    pub fn should_abort(&self, abort_on_download_error: bool) -> (r: bool)
        ensures
            r == (self.always_fatal() || abort_on_download_error),
    {
        match self {
            WscError::DestinationDirectoryDoesNotExist(_) => true,
            WscError::NetworkError(_) => true,
            WscError::ChannelClosed => true,
            _ => abort_on_download_error,
        }
    }

    /// A human-readable rendering of the error, never empty.
    pub fn describe(&self) -> (r: String)
        ensures
            r@.len() > 0,
    {
        match self {
            WscError::ErrorCreatingDestinationDirectory(err) => {
                proof { reveal_strlit("error creating destination directory. "); }
                concat_str("error creating destination directory. ", err.as_str())
            },
            WscError::InvalidHtml(f_name) => {
                proof { reveal_strlit("error processing page content in file "); }
                concat_str("error processing page content in file ", f_name.as_str())
            },
            WscError::UnknownError(err) => {
                proof { reveal_strlit("an unknown error occurred. "); }
                concat_str("an unknown error occurred. ", err.as_str())
            },
            WscError::DestinationDirectoryDoesNotExist(dir) => {
                proof { reveal_strlit("the provided destination directory does not exist: "); }
                concat_str("the provided destination directory does not exist: ", dir.as_str())
            },
            WscError::FileOperationError { file_name, message } => {
                proof { reveal_strlit("file operation failed: "); }
                let head = concat_str("file operation failed: ", message.as_str());
                let head = concat_str(head.as_str(), " : ");
                concat_str(head.as_str(), file_name.as_str())
            },
            WscError::NetworkError(err) => {
                proof { reveal_strlit("error connecting to internet. "); }
                concat_str("error connecting to internet. ", err.as_str())
            },
            WscError::ErrorStatusCode { status_code, url } => {
                proof { reveal_strlit("server returned an error response. "); }
                let head = concat_str("server returned an error response. ", url.as_str());
                let head = concat_str(head.as_str(), " => ");
                concat_str(head.as_str(), status_code.as_str())
            },
            WscError::ChannelClosed => {
                proof { reveal_strlit("Channel closed before download completion"); }
                let r = String::from_str("Channel closed before download completion");
                assert(r@.len() > 0);
                r
            },
            WscError::InvalidUrl(url) => {
                proof { reveal_strlit("Invalid url received : "); }
                concat_str("Invalid url received : ", url.as_str())
            },
        }
    }
}

/// `head + tail` as a fresh `String`.
fn concat_str(head: &str, tail: &str) -> (r: String)
    ensures
        r@ == head@ + tail@,
{
    let mut r = head.to_owned();
    r.append(tail);
    r
}

} // verus!
