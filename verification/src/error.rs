//! The errors of the service, their texts, and how each is answered.

use vstd::prelude::*;
use vstd::string::*;

verus! {

/// Why a preview or a job could not be served. Errors that came from
/// I/O or from an HTTP client carry the text of the underlying error.
#[derive(Debug, Clone)]
pub enum PreviewError {
    UnsupportedOutputFormat(String),
    InvalidInput(String),
    ProcessingFailed(String),
    DownloadFailed(String),
    IoError(String),
    RequestError(String),
    InvalidFileType,
    JobNotFound(String),
    InternalError(String),
    ExternalToolError(String, String),
}

impl PreviewError {
    /// The text of the error.
    pub open spec fn text(self) -> Seq<char> {
        match self {
            PreviewError::UnsupportedOutputFormat(s) => "Unsupported output format: "@ + s@,
            PreviewError::InvalidInput(s) => "Invalid input file: "@ + s@,
            PreviewError::ProcessingFailed(s) => "File processing failed: "@ + s@,
            PreviewError::DownloadFailed(s) => "Download failed: "@ + s@,
            PreviewError::IoError(s) => "IO error: "@ + s@,
            PreviewError::RequestError(s) => "Request error: "@ + s@,
            PreviewError::InvalidFileType => "Invalid file type or corrupted file"@,
            PreviewError::JobNotFound(s) => "Job not found: "@ + s@,
            PreviewError::InternalError(s) => "Internal server error: "@ + s@,
            PreviewError::ExternalToolError(t, s) => "External tool error: "@ + t@ + " - "@
                + s@,
        }
    }

    /// The HTTP status an error is answered with.
    pub open spec fn status(self) -> u16 {
        match self {
            PreviewError::UnsupportedOutputFormat(_) => 400,
            PreviewError::InvalidInput(_) => 400,
            PreviewError::InvalidFileType => 400,
            PreviewError::JobNotFound(_) => 404,
            PreviewError::DownloadFailed(_) => 400,
            PreviewError::ProcessingFailed(_) => 500,
            PreviewError::ExternalToolError(_, _) => 500,
            _ => 500,
        }
    }

    /// Errors whose text is not shown to the client.
    pub open spec fn is_concealed(self) -> bool {
        match self {
            PreviewError::IoError(_) => true,
            PreviewError::RequestError(_) => true,
            PreviewError::InternalError(_) => true,
            _ => false,
        }
    }

    /// The message an error is answered with.
    pub open spec fn answer(self) -> Seq<char> {
        if self.is_concealed() {
            "Internal server error"@
        } else {
            self.text()
        }
    }

    /// The text of the error, as its `to_string()` gives it.
    pub fn message(&self) -> (r: String)
        ensures
            r@ == self.text(),
    {
        match self {
            PreviewError::UnsupportedOutputFormat(s) => String::from_str(
                "Unsupported output format: ",
            ).concat(s.as_str()),
            PreviewError::InvalidInput(s) => String::from_str("Invalid input file: ").concat(
                s.as_str(),
            ),
            PreviewError::ProcessingFailed(s) => String::from_str(
                "File processing failed: ",
            ).concat(s.as_str()),
            PreviewError::DownloadFailed(s) => String::from_str("Download failed: ").concat(
                s.as_str(),
            ),
            PreviewError::IoError(s) => String::from_str("IO error: ").concat(s.as_str()),
            PreviewError::RequestError(s) => String::from_str("Request error: ").concat(
                s.as_str(),
            ),
            PreviewError::InvalidFileType => String::from_str(
                "Invalid file type or corrupted file",
            ),
            PreviewError::JobNotFound(s) => String::from_str("Job not found: ").concat(
                s.as_str(),
            ),
            PreviewError::InternalError(s) => String::from_str("Internal server error: ").concat(
                s.as_str(),
            ),
            PreviewError::ExternalToolError(t, s) => String::from_str(
                "External tool error: ",
            ).concat(t.as_str()).concat(" - ").concat(s.as_str()),
        }
    }

    /// The HTTP status code the error is answered with: 400 for bad
    /// input and failed downloads, 404 for an unknown job, 500 otherwise.
    pub fn status_code(&self) -> (r: u16)
        ensures
            r == self.status(),
    {
        match self {
            PreviewError::UnsupportedOutputFormat(_) => 400,
            PreviewError::InvalidInput(_) => 400,
            PreviewError::InvalidFileType => 400,
            PreviewError::JobNotFound(_) => 404,
            PreviewError::DownloadFailed(_) => 400,
            PreviewError::ProcessingFailed(_) => 500,
            PreviewError::ExternalToolError(_, _) => 500,
            _ => 500,
        }
    }

    /// The message the error is answered with: its text, except for I/O,
    /// HTTP client and internal errors, which are answered with a generic
    /// message.
    pub fn response_message(&self) -> (r: String)
        ensures
            r@ == self.answer(),
    {
        match self {
            PreviewError::IoError(_) | PreviewError::RequestError(_)
            | PreviewError::InternalError(_) => String::from_str("Internal server error"),
            _ => self.message(),
        }
    }
}

/// Every error is answered with a client error (400 or 404) or a
/// server error (500).
pub proof fn law_error_status_codes(e: PreviewError)
    ensures
        e.status() == 400 || e.status() == 404 || e.status() == 500,
{
}

/// An error answered with a client error status carries its full text;
/// I/O, HTTP client and internal errors never show their details.
pub proof fn law_error_answers(e: PreviewError)
    ensures
        e.status() < 500 ==> e.answer() == e.text(),
        e.is_concealed() ==> e.answer() == "Internal server error"@ && e.status() == 500,
{
}

} // verus!
