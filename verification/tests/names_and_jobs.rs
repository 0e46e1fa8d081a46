use filepreview_rust::error::PreviewError;
use filepreview_rust::jobs::JobStore;
use filepreview_rust::input::InputSource;
use filepreview_rust::naming::{
    check_download_name, check_download_status, download_file_name, download_url, output_file_name, preview_file_name,
    preview_file_name_for_id, result_file_name, result_path_for, served_file_path,
};
use filepreview_rust::text::{decimal_string, signed_decimal_string, str_starts_with, text_after_last};
use filepreview_rust::types::{JobState, OutputFormat, ProcessingJob};

#[test]
fn preview_name_from_digest() {
    let digest: Vec<u8> = (0u8..32).collect();
    assert_eq!(preview_file_name(&digest, OutputFormat::Png), "preview_0001020304050607.png");
    let high: Vec<u8> = vec![0xab, 0xcd, 0xef, 0x10, 0xff, 0x00, 0x7f, 0x80, 0x99];
    assert_eq!(preview_file_name(&high, OutputFormat::Gif), "preview_abcdef10ff007f80.gif");
}

#[test]
fn preview_name_hashes_the_id() {
    // SHA-256 of the empty string starts with e3b0c44298fc1c14
    assert_eq!(preview_file_name_for_id("", OutputFormat::Jpg), "preview_e3b0c44298fc1c14.jpg");
    // SHA-256 of "abc" starts with ba7816bf8f01cfea
    assert_eq!(preview_file_name_for_id("abc", OutputFormat::Png), "preview_ba7816bf8f01cfea.png");
}

#[test]
fn fresh_preview_names_have_the_shape() {
    let a = output_file_name(OutputFormat::Jpg);
    let b = output_file_name(OutputFormat::Jpg);
    assert_eq!(a.len(), "preview_".len() + 16 + ".jpg".len());
    assert!(a.starts_with("preview_"));
    assert!(a.ends_with(".jpg"));
    assert!(a[8..24].chars().all(|c| c.is_ascii_hexdigit() && !c.is_ascii_uppercase()));
    assert_ne!(a, b);
}

#[test]
fn result_names() {
    assert_eq!(result_file_name("abc", 1700000000, OutputFormat::Png), "result_abc_1700000000.png");
    assert_eq!(result_file_name("j", 0, OutputFormat::Gif), "result_j_0.gif");
    assert_eq!(result_file_name("j", -5, OutputFormat::Jpg), "result_j_-5.jpg");
}

#[test]
fn decimal_rendering() {
    assert_eq!(decimal_string(0), "0");
    assert_eq!(decimal_string(7), "7");
    assert_eq!(decimal_string(1234567890), "1234567890");
    assert_eq!(decimal_string(u64::MAX), u64::MAX.to_string());
    assert_eq!(signed_decimal_string(-42), "-42");
    assert_eq!(signed_decimal_string(i64::MIN), i64::MIN.to_string());
    assert_eq!(signed_decimal_string(i64::MAX), i64::MAX.to_string());
}

#[test]
fn served_paths_and_links() {
    assert_eq!(served_file_path("result_x.png"), "/tmp/result_x.png");
    assert_eq!(download_url("/tmp/result_x.png"), "/download/result_x.png");
    assert_eq!(download_url("plain"), "/download/plain");
    assert_eq!(download_url("dir/"), "/download/");
}

#[test]
fn download_link_serves_the_stored_result() {
    let name = result_file_name("job-1", 42, OutputFormat::Png);
    let stored = served_file_path(&name);
    let link = download_url(&stored);
    let requested = link.strip_prefix("/download/").unwrap();
    assert_eq!(served_file_path(requested), stored);
}

#[test]
fn download_names() {
    assert_eq!(download_file_name("https://example.com/files/report.pdf"), "report.pdf");
    assert_eq!(download_file_name("https://example.com/"), "");
    assert_eq!(download_file_name("nofile"), "nofile");
    assert_eq!(text_after_last("a/b/c", '/'), "c");
}

#[test]
fn download_status() {
    assert!(check_download_status(true, "200 OK", "u").is_ok());
    match check_download_status(false, "404 Not Found", "https://x/y") {
        Err(PreviewError::DownloadFailed(m)) => assert_eq!(m, "HTTP 404 Not Found: https://x/y"),
        other => panic!("unexpected {:?}", other),
    }
}

#[test]
fn prefixes() {
    assert!(str_starts_with("data:abc", "data:"));
    assert!(!str_starts_with("dat", "data:"));
    assert!(str_starts_with("x", ""));
}

#[test]
fn created_job_is_pending() {
    let mut store = JobStore::new();
    store.create_job("job-1".to_string());
    let s = store.job_status("job-1").unwrap();
    assert_eq!(s.job_id, "job-1");
    assert_eq!(s.status, JobState::Pending);
    assert_eq!(s.message, "Job created");
    assert!(s.result_url.is_none());
    assert_eq!(s.progress, 0);
}

#[test]
fn unknown_job_is_not_found() {
    let store = JobStore::new();
    match store.job_status("nope") {
        Err(PreviewError::JobNotFound(m)) => assert_eq!(m, "nope"),
        other => panic!("unexpected {:?}", other),
    }
}

#[test]
fn job_lifecycle() {
    let mut store = JobStore::new();
    store.create_job("j".to_string());
    store.mark_processing("j");
    let s = store.job_status("j").unwrap();
    assert_eq!((s.status, s.progress), (JobState::Processing, 10));
    assert_eq!(s.message, "Processing file");
    store.note_input_source("j", InputSource::RemoteUrl);
    let s = store.job_status("j").unwrap();
    assert_eq!((s.status, s.progress), (JobState::Processing, 20));
    assert_eq!(s.message, "Downloading file");
    store.mark_generating("j");
    let s = store.job_status("j").unwrap();
    assert_eq!((s.status, s.progress), (JobState::Processing, 50));
    assert_eq!(s.message, "Generating preview");
    assert!(s.result_url.is_none());
    store.mark_completed("j", "/tmp/result_j_1.png".to_string());
    let s = store.job_status("j").unwrap();
    assert_eq!((s.status, s.progress), (JobState::Completed, 100));
    assert_eq!(s.message, "Preview generated successfully");
    assert_eq!(s.result_url.as_deref(), Some("/download/result_j_1.png"));
}

#[test]
fn local_inputs_are_not_downloaded() {
    let mut store = JobStore::new();
    store.create_job("j".to_string());
    store.mark_processing("j");
    store.note_input_source("j", InputSource::EncodedData);
    store.note_input_source("j", InputSource::LocalPath);
    let s = store.job_status("j").unwrap();
    assert_eq!(s.progress, 10);
    assert_eq!(s.message, "Processing file");
}

#[test]
fn failed_job_keeps_progress() {
    let mut store = JobStore::new();
    store.create_job("j".to_string());
    store.mark_processing("j");
    store.mark_generating("j");
    store.mark_failed("j", "File processing failed: boom".to_string());
    let s = store.job_status("j").unwrap();
    assert_eq!(s.status, JobState::Failed);
    assert_eq!(s.message, "File processing failed: boom");
    assert_eq!(s.progress, 50);
    assert!(s.result_url.is_none());
}

#[test]
fn jobs_are_isolated() {
    let mut store = JobStore::new();
    store.create_job("a".to_string());
    store.create_job("b".to_string());
    store.mark_processing("a");
    store.mark_completed("a", "/tmp/r.png".to_string());
    let b = store.job_status("b").unwrap();
    assert_eq!(b.status, JobState::Pending);
    assert_eq!(b.progress, 0);
    // changes to unknown jobs do nothing
    store.mark_failed("zzz", "x".to_string());
    assert!(store.job_status("zzz").is_err());
}

#[test]
fn insert_replaces_same_id() {
    let mut store = JobStore::new();
    store.create_job("a".to_string());
    store.insert(ProcessingJob {
        id: "a".to_string(),
        status: JobState::Failed,
        message: "m".to_string(),
        result_path: Some("/tmp/q.gif".to_string()),
        progress: 7,
    });
    let job = store.get("a").unwrap();
    assert_eq!(job.status, JobState::Failed);
    assert_eq!(job.progress, 7);
    assert!(store.get("b").is_none());
    // a failed job with a result path still shows no link
    assert!(store.job_status("a").unwrap().result_url.is_none());
}

#[test]
fn submitted_jobs_get_fresh_ids() {
    let mut store = JobStore::new();
    let a = store.submit_job();
    let b = store.submit_job();
    assert_ne!(a, b);
    assert_eq!(a.len(), 36);
    assert_eq!(store.job_status(&a).unwrap().status, JobState::Pending);
    assert_eq!(store.job_status(&b).unwrap().job_id, b);
}

#[test]
fn result_paths_are_in_the_served_directory() {
    assert_eq!(result_path_for("j1", 1700000000, OutputFormat::Png), "/tmp/result_j1_1700000000.png");
    assert_eq!(result_path_for("j1", -5, OutputFormat::Gif), "/tmp/result_j1_-5.gif");
    let path = result_path_for("abc", 42, OutputFormat::Jpg);
    assert_eq!(download_url(&path), "/download/result_abc_42.jpg");
    assert_eq!(served_file_path("result_abc_42.jpg"), path);
}

#[test]
fn servable_download_names() {
    assert!(check_download_name("result_j1_1.png").is_ok());
    assert!(check_download_name("..a").is_ok());
    for bad in ["", ".", "..", "../etc/passwd", "a/b", "/x"] {
        match check_download_name(bad) {
            Err(PreviewError::InvalidInput(m)) => assert_eq!(m, "Invalid file name"),
            other => panic!("unexpected {:?} for {:?}", other, bad),
        }
    }
}
