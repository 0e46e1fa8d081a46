use filepreview_rust::input::{local_path_of, InputSource};
use filepreview_rust::jobs::JobStore;
use filepreview_rust::commands::geometry_text;
use filepreview_rust::types::{JobState, OutputFormat};
use filepreview_rust::workflow::{RunAction, RunEvent, RunStage};

#[test]
fn file_urls_name_local_paths() {
    assert_eq!(local_path_of("file:///path/to/file.pdf"), "/path/to/file.pdf");
    assert_eq!(local_path_of("/path/to/file.pdf"), "/path/to/file.pdf");
    assert_eq!(local_path_of("file://"), "");
    assert_eq!(local_path_of("files/x"), "files/x");
}

#[test]
fn geometries() {
    assert_eq!(geometry_text(Some(640), Some(480)), "640x480");
    assert_eq!(geometry_text(Some(640), None), "640x");
    assert_eq!(geometry_text(None, Some(480)), "x480");
    assert_eq!(geometry_text(None, None), "");
}

#[test]
fn submitted_job_ids_are_uuid_v4_text() {
    let mut store = JobStore::new();
    let id = store.submit_job();
    let chars: Vec<char> = id.chars().collect();
    assert_eq!(chars.len(), 36);
    for (i, c) in chars.iter().enumerate() {
        if i == 8 || i == 13 || i == 18 || i == 23 {
            assert_eq!(*c, '-');
        } else {
            assert!(c.is_ascii_hexdigit() && !c.is_ascii_uppercase());
        }
    }
    assert_eq!(chars[14], '4');
    assert!(matches!(chars[19], '8' | '9' | 'a' | 'b'));
}

#[test]
fn successful_course_of_a_downloaded_input() {
    let mut store = JobStore::new();
    store.create_job("j".to_string());
    let src = InputSource::RemoteUrl;
    let (s1, a1) = store.run_step("j", RunStage::NotStarted, src, OutputFormat::Png, RunEvent::StepDone);
    assert_eq!((s1, a1), (RunStage::Preparing, RunAction::PrepareGenerator));
    assert_eq!(store.job_status("j").unwrap().progress, 10);
    let (s2, a2) = store.run_step("j", s1, src, OutputFormat::Png, RunEvent::StepDone);
    assert_eq!((s2, a2), (RunStage::FetchingInput, RunAction::FetchInput(src)));
    let st = store.job_status("j").unwrap();
    assert_eq!((st.message.as_str(), st.progress), ("Downloading file", 20));
    let (s3, a3) = store.run_step("j", s2, src, OutputFormat::Png, RunEvent::StepDone);
    assert_eq!((s3, a3), (RunStage::Generating, RunAction::GeneratePreview));
    assert_eq!(store.job_status("j").unwrap().progress, 50);
    let (s4, a4) = store.run_step("j", s3, src, OutputFormat::Png, RunEvent::StepDone);
    assert_eq!((s4, a4), (RunStage::Storing, RunAction::StoreResult));
    let (s5, a5) = store.run_step("j", s4, src, OutputFormat::Png, RunEvent::ResultStored(1700000000));
    assert_eq!((s5, a5), (RunStage::Completed, RunAction::Stop));
    let st = store.job_status("j").unwrap();
    assert_eq!(st.status, JobState::Completed);
    assert_eq!(st.progress, 100);
    assert_eq!(st.result_url.as_deref(), Some("/download/result_j_1700000000.png"));
    // the course is over: nothing changes any more
    let (s6, a6) = store.run_step("j", s5, src, OutputFormat::Png, RunEvent::StepFailed("late".to_string()));
    assert_eq!((s6, a6), (RunStage::Completed, RunAction::Stop));
    assert_eq!(store.job_status("j").unwrap().status, JobState::Completed);
}

#[test]
fn local_input_skips_download_note() {
    let mut store = JobStore::new();
    store.create_job("j".to_string());
    let src = InputSource::LocalPath;
    let (s1, _) = store.run_step("j", RunStage::NotStarted, src, OutputFormat::Png, RunEvent::StepDone);
    let (s2, a2) = store.run_step("j", s1, src, OutputFormat::Png, RunEvent::StepDone);
    assert_eq!(a2, RunAction::FetchInput(InputSource::LocalPath));
    assert_eq!(s2, RunStage::FetchingInput);
    let st = store.job_status("j").unwrap();
    assert_eq!((st.message.as_str(), st.progress), ("Processing file", 10));
}

#[test]
fn first_failure_ends_the_course() {
    let mut store = JobStore::new();
    store.create_job("j".to_string());
    let src = InputSource::EncodedData;
    let (s1, _) = store.run_step("j", RunStage::NotStarted, src, OutputFormat::Png, RunEvent::StepDone);
    let (s2, _) = store.run_step("j", s1, src, OutputFormat::Png, RunEvent::StepDone);
    let (s3, a3) = store.run_step("j", s2, src, OutputFormat::Png, RunEvent::StepFailed("Invalid input file: x".to_string()));
    assert_eq!((s3, a3), (RunStage::Failed, RunAction::Stop));
    // the failed step leaves the job where it was; the caller, holding
    // the error, marks it failed
    let st = store.job_status("j").unwrap();
    assert_eq!(st.status, JobState::Processing);
    assert_eq!(st.progress, 10);
    store.mark_failed("j", "Invalid input file: x".to_string());
    let st = store.job_status("j").unwrap();
    assert_eq!(st.status, JobState::Failed);
    assert_eq!(st.message, "Invalid input file: x");
    assert_eq!(st.progress, 10);
    let (s4, a4) = store.run_step("j", s3, src, OutputFormat::Png, RunEvent::StepDone);
    assert_eq!((s4, a4), (RunStage::Failed, RunAction::Stop));
    assert_eq!(store.job_status("j").unwrap().status, JobState::Failed);
}
