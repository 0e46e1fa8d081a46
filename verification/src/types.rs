//! The values that requests, responses and jobs are made of.

use vstd::prelude::*;
use vstd::string::*;

verus! {

/// The characters of an optional string.
pub open spec fn opt_view(o: Option<String>) -> Option<Seq<char>> {
    match o {
        Some(s) => Some(s@),
        None => None,
    }
}

/// A request for a preview of one input.
#[derive(Debug, Clone)]
pub struct PreviewRequest {
    /// Input file URL or base64 encoded file
    pub input: String,
    /// Output format (gif, jpg, png)
    pub output_format: OutputFormat,
    /// Optional preview options
    pub options: PreviewOptions,
}

/// How the preview is to be made.
#[derive(Debug, Clone)]
pub struct PreviewOptions {
    /// Width of the preview image
    pub width: Option<u32>,
    /// Height of the preview image
    pub height: Option<u32>,
    /// Quality of the output (1-100)
    pub quality: Option<u32>,
    /// Preview time for videos (format: HH:MM:SS.mmm)
    pub preview_time: Option<String>,
}

impl Default for PreviewOptions {
    /// The input's own size, quality 85, and for videos the frame at one
    /// second.
    fn default() -> (r: Self)
        ensures
            r.width is None,
            r.height is None,
            r.quality == Some(85u32),
            opt_view(r.preview_time) == Some("00:00:01.000"@),
    {
        PreviewOptions {
            width: None,
            height: None,
            quality: Some(85),
            preview_time: Some(String::from_str("00:00:01.000")),
        }
    }
}

/// The image format of a preview.
#[derive(Debug, Clone, Copy, PartialEq, Eq, Structural)]
pub enum OutputFormat {
    Gif,
    Jpg,
    Png,
}

impl OutputFormat {
    /// The file extension of the format.
    pub open spec fn ext(self) -> Seq<char> {
        match self {
            OutputFormat::Gif => "gif"@,
            OutputFormat::Jpg => "jpg"@,
            OutputFormat::Png => "png"@,
        }
    }

    /// The file extension of the format: "gif", "jpg" or "png".
    pub fn extension(&self) -> (r: &'static str)
        ensures
            r@ == self.ext(),
    {
        match self {
            OutputFormat::Gif => "gif",
            OutputFormat::Jpg => "jpg",
            OutputFormat::Png => "png",
        }
    }
}

/// The kind of an input file, which decides how it is converted.
#[derive(Debug, Clone, Copy, PartialEq, Eq, Structural)]
pub enum FileType {
    Image,
    Video,
    Document,
    Other,
}

/// The answer to a preview request.
#[derive(Debug, Clone)]
pub struct PreviewResponse {
    pub success: bool,
    pub message: String,
    /// URL to download the generated preview
    pub preview_url: Option<String>,
    /// For async requests, job ID to check status
    pub job_id: Option<String>,
}

/// What a client is told of a background job.
#[derive(Debug, Clone)]
pub struct JobStatus {
    pub job_id: String,
    pub status: JobState,
    pub message: String,
    /// URL to download the result if completed
    pub result_url: Option<String>,
    /// Progress percentage (0-100)
    pub progress: u8,
}

/// The stage of a background job.
#[derive(Debug, Clone, Copy, PartialEq, Eq, Structural)]
pub enum JobState {
    Pending,
    Processing,
    Completed,
    Failed,
}

/// A background job as the service keeps it.
#[derive(Debug, Clone)]
pub struct ProcessingJob {
    pub id: String,
    pub status: JobState,
    pub message: String,
    pub result_path: Option<String>,
    pub progress: u8,
}

/// A job as plain values.
pub struct JobRecord {
    pub id: Seq<char>,
    pub status: JobState,
    pub message: Seq<char>,
    pub result_path: Option<Seq<char>>,
    pub progress: u8,
}

impl ProcessingJob {
    /// The job as plain values.
    pub open spec fn record(self) -> JobRecord {
        JobRecord {
            id: self.id@,
            status: self.status,
            message: self.message@,
            result_path: opt_view(self.result_path),
            progress: self.progress,
        }
    }
}

/// A job status as plain values.
pub struct StatusRecord {
    pub job_id: Seq<char>,
    pub status: JobState,
    pub message: Seq<char>,
    pub result_url: Option<Seq<char>>,
    pub progress: u8,
}

impl JobStatus {
    /// The status as plain values.
    pub open spec fn record(self) -> StatusRecord {
        StatusRecord {
            job_id: self.job_id@,
            status: self.status,
            message: self.message@,
            result_url: opt_view(self.result_url),
            progress: self.progress,
        }
    }
}

} // verus!
