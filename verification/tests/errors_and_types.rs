use filepreview_rust::error::PreviewError;
use filepreview_rust::service::{
    health_report, job_accepted, preview_generated, require_file_exists, server_address,
};
use filepreview_rust::types::{OutputFormat, PreviewOptions};

fn s(x: &str) -> String {
    x.to_string()
}

#[test]
fn output_format_extensions() {
    assert_eq!(OutputFormat::Gif.extension(), "gif");
    assert_eq!(OutputFormat::Jpg.extension(), "jpg");
    assert_eq!(OutputFormat::Png.extension(), "png");
}

#[test]
fn default_options_are_documented_defaults() {
    let o = PreviewOptions::default();
    assert!(o.width.is_none());
    assert!(o.height.is_none());
    assert_eq!(o.quality, Some(85));
    assert_eq!(o.preview_time.as_deref(), Some("00:00:01.000"));
}

#[test]
fn error_messages() {
    assert_eq!(PreviewError::UnsupportedOutputFormat(s("bmp")).message(), "Unsupported output format: bmp");
    assert_eq!(PreviewError::InvalidInput(s("x")).message(), "Invalid input file: x");
    assert_eq!(PreviewError::ProcessingFailed(s("x")).message(), "File processing failed: x");
    assert_eq!(PreviewError::DownloadFailed(s("x")).message(), "Download failed: x");
    assert_eq!(PreviewError::IoError(s("disk")).message(), "IO error: disk");
    assert_eq!(PreviewError::RequestError(s("net")).message(), "Request error: net");
    assert_eq!(PreviewError::InvalidFileType.message(), "Invalid file type or corrupted file");
    assert_eq!(PreviewError::JobNotFound(s("j1")).message(), "Job not found: j1");
    assert_eq!(PreviewError::InternalError(s("x")).message(), "Internal server error: x");
    assert_eq!(
        PreviewError::ExternalToolError(s("ffmpeg"), s("missing")).message(),
        "External tool error: ffmpeg - missing"
    );
}

#[test]
fn error_status_codes() {
    assert_eq!(PreviewError::UnsupportedOutputFormat(s("a")).status_code(), 400);
    assert_eq!(PreviewError::InvalidInput(s("a")).status_code(), 400);
    assert_eq!(PreviewError::InvalidFileType.status_code(), 400);
    assert_eq!(PreviewError::DownloadFailed(s("a")).status_code(), 400);
    assert_eq!(PreviewError::JobNotFound(s("a")).status_code(), 404);
    assert_eq!(PreviewError::ProcessingFailed(s("a")).status_code(), 500);
    assert_eq!(PreviewError::ExternalToolError(s("a"), s("b")).status_code(), 500);
    assert_eq!(PreviewError::IoError(s("a")).status_code(), 500);
    assert_eq!(PreviewError::RequestError(s("a")).status_code(), 500);
    assert_eq!(PreviewError::InternalError(s("a")).status_code(), 500);
}

#[test]
fn error_answers_hide_internal_details() {
    assert_eq!(PreviewError::IoError(s("secret")).response_message(), "Internal server error");
    assert_eq!(PreviewError::RequestError(s("secret")).response_message(), "Internal server error");
    assert_eq!(PreviewError::InternalError(s("secret")).response_message(), "Internal server error");
    assert_eq!(PreviewError::JobNotFound(s("j")).response_message(), "Job not found: j");
    assert_eq!(
        PreviewError::ProcessingFailed(s("boom")).response_message(),
        "File processing failed: boom"
    );
}

#[test]
fn health_report_values() {
    let h = health_report();
    assert_eq!(h.status, "healthy");
    assert_eq!(h.service, "filepreview-rust");
    assert_eq!(h.version, "0.1.0");
}

#[test]
fn responses() {
    let r = preview_generated(s("data:image/png;base64,AAAA"));
    assert!(r.success);
    assert_eq!(r.message, "Preview generated successfully");
    assert_eq!(r.preview_url.as_deref(), Some("data:image/png;base64,AAAA"));
    assert!(r.job_id.is_none());
    let a = job_accepted(s("id-1"));
    assert!(a.success);
    assert_eq!(a.message, "Job created successfully");
    assert!(a.preview_url.is_none());
    assert_eq!(a.job_id.as_deref(), Some("id-1"));
}

#[test]
fn missing_file_is_invalid_input() {
    assert!(require_file_exists(true).is_ok());
    match require_file_exists(false) {
        Err(PreviewError::InvalidInput(m)) => assert_eq!(m, "File not found"),
        other => panic!("unexpected {:?}", other),
    }
}

#[test]
fn server_address_defaults_and_settings() {
    assert_eq!(server_address(None, None), "0.0.0.0:3000");
    assert_eq!(server_address(Some("127.0.0.1".to_string()), None), "127.0.0.1:3000");
    assert_eq!(server_address(None, Some("8080".to_string())), "0.0.0.0:8080");
    assert_eq!(server_address(Some("localhost".to_string()), Some("9000".to_string())), "localhost:9000");
}
