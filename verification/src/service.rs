//! What the service answers: its health report, and the responses to
//! preview requests.

use vstd::prelude::*;
use vstd::string::*;

use crate::error::PreviewError;
use crate::types::{opt_view, PreviewResponse};

verus! {

/// The service's report on itself.
#[derive(Debug, Clone)]
pub struct HealthReport {
    pub status: String,
    pub service: String,
    pub version: String,
}

/// The health report: healthy, "filepreview-rust", version "0.1.0".
pub fn health_report() -> (r: HealthReport)
    ensures
        r.status@ == "healthy"@,
        r.service@ == "filepreview-rust"@,
        r.version@ == "0.1.0"@,
{
    HealthReport {
        status: String::from_str("healthy"),
        service: String::from_str("filepreview-rust"),
        version: String::from_str("0.1.0"),
    }
}

/// The answer to a preview made at once: success, and the preview's URL.
pub fn preview_generated(preview_url: String) -> (r: PreviewResponse)
    ensures
        r.success,
        r.message@ == "Preview generated successfully"@,
        opt_view(r.preview_url) == Some(preview_url@),
        r.job_id is None,
{
    PreviewResponse {
        success: true,
        message: String::from_str("Preview generated successfully"),
        preview_url: Some(preview_url),
        job_id: None,
    }
}

/// The answer to a preview made in the background: success, and the
/// id of the job to ask after.
pub fn job_accepted(job_id: String) -> (r: PreviewResponse)
    ensures
        r.success,
        r.message@ == "Job created successfully"@,
        r.preview_url is None,
        opt_view(r.job_id) == Some(job_id@),
{
    PreviewResponse {
        success: true,
        message: String::from_str("Job created successfully"),
        preview_url: None,
        job_id: Some(job_id),
    }
}

/// A file that should exist and does not is refused as invalid input
/// with the message "File not found".
pub fn require_file_exists(exists: bool) -> (r: Result<(), PreviewError>)
    ensures
        exists ==> r is Ok,
        !exists ==> (r matches Err(PreviewError::InvalidInput(m)) && m@ == "File not found"@),
{
    if exists {
        Ok(())
    } else {
        Err(PreviewError::InvalidInput(String::from_str("File not found")))
    }
}

/// The address the server listens on, from the `BIND_ADDRESS` and `PORT`
/// settings: the bind address (by default `0.0.0.0`), `:`, and the port
/// (by default `3000`).
pub open spec fn listen_address(bind: Option<Seq<char>>, port: Option<Seq<char>>) -> Seq<char> {
    let host = match bind {
        Some(b) => b,
        None => "0.0.0.0"@,
    };
    let p = match port {
        Some(p) => p,
        None => "3000"@,
    };
    host + ":"@ + p
}

/// The address to listen on, given the `BIND_ADDRESS` and `PORT`
/// settings where they are set.
pub fn server_address(bind: Option<String>, port: Option<String>) -> (r: String)
    ensures
        r@ == listen_address(opt_view(bind), opt_view(port)),
{
    let host = match bind {
        Some(b) => b,
        None => String::from_str("0.0.0.0"),
    };
    let p = match port {
        Some(p) => p,
        None => String::from_str("3000"),
    };
    host.concat(":").concat(p.as_str())
}

} // verus!
