use filepreview_rust::commands::{
    after_tool, check_tool_outcome, document_pdf_args, first_tool, image_convert_args,
    is_time_text, preview_plan, validate_options, video_thumbnail_args, ExternalTool, PlanStep,
    ToolOutcome,
};
use filepreview_rust::detect::{
    detect_file_type, file_type_for_extension, file_type_for_mime, lower_extension_of,
};
use filepreview_rust::error::PreviewError;
use filepreview_rust::types::{FileType, PreviewOptions};

fn opts(w: Option<u32>, h: Option<u32>, q: Option<u32>, t: Option<&str>) -> PreviewOptions {
    PreviewOptions { width: w, height: h, quality: q, preview_time: t.map(|x| x.to_string()) }
}

#[test]
fn detect_by_mime() {
    assert_eq!(detect_file_type("/data/photo.png"), FileType::Image);
    assert_eq!(detect_file_type("photo.JPG"), FileType::Image);
    assert_eq!(detect_file_type("movie.mp4"), FileType::Video);
    assert_eq!(detect_file_type("paper.pdf"), FileType::Image);
    assert_eq!(detect_file_type("report.docx"), FileType::Document);
    assert_eq!(detect_file_type("notes.txt"), FileType::Document);
}

#[test]
fn detect_unknown_is_octet_stream_document() {
    assert_eq!(detect_file_type("blob.zzzunknown"), FileType::Document);
    assert_eq!(detect_file_type("noextension"), FileType::Document);
}

#[test]
fn detect_falls_back_to_extension() {
    // audio is neither image, video, application nor text
    assert_eq!(detect_file_type("song.mp3"), FileType::Other);
}

#[test]
fn lowercased_extension() {
    assert_eq!(lower_extension_of("/x/FILE.PDF"), "pdf");
    assert_eq!(lower_extension_of("archive.tar.GZ"), "gz");
    assert_eq!(lower_extension_of("noext"), "");
    assert_eq!(lower_extension_of(".hidden"), "");
}

#[test]
fn extension_table() {
    for e in ["pdf", "jpg", "jpeg", "png", "gif", "bmp", "tiff", "webp"] {
        assert_eq!(file_type_for_extension(e), FileType::Image);
    }
    for e in ["mp4", "avi", "mov", "wmv", "flv", "webm", "mkv"] {
        assert_eq!(file_type_for_extension(e), FileType::Video);
    }
    for e in ["doc", "docx", "xls", "xlsx", "ppt", "pptx", "odt", "ods", "odp"] {
        assert_eq!(file_type_for_extension(e), FileType::Document);
    }
    assert_eq!(file_type_for_extension("mp3"), FileType::Other);
    assert_eq!(file_type_for_extension("PDF"), FileType::Other);
    assert_eq!(file_type_for_extension(""), FileType::Other);
}

#[test]
fn mime_table() {
    assert_eq!(file_type_for_mime("image/webp"), Some(FileType::Image));
    assert_eq!(file_type_for_mime("video/quicktime"), Some(FileType::Video));
    assert_eq!(file_type_for_mime("application/pdf"), Some(FileType::Image));
    assert_eq!(file_type_for_mime("application/zip"), Some(FileType::Document));
    assert_eq!(file_type_for_mime("text/csv"), Some(FileType::Document));
    assert_eq!(file_type_for_mime("audio/mpeg"), None);
}

#[test]
fn convert_args_plain() {
    let a = image_convert_args("/in/a.png", "/out/p.jpg", &opts(None, None, None, None));
    assert_eq!(a, vec!["-quality", "85", "/in/a.png[0]", "/out/p.jpg"]);
    let d = image_convert_args("/in/a.png", "/out/p.jpg", &PreviewOptions::default());
    assert_eq!(d, vec!["-quality", "85", "/in/a.png[0]", "/out/p.jpg"]);
}

#[test]
fn convert_args_with_size_and_quality() {
    let a = image_convert_args("in.pdf", "out.png", &opts(Some(640), Some(480), Some(85), None));
    assert_eq!(a, vec!["-quality", "85", "-resize", "640x480", "in.pdf[0]", "out.png"]);
    let b = image_convert_args("in.pdf", "out.png", &opts(Some(640), Some(480), Some(30), None));
    assert_eq!(b, vec!["-quality", "30", "-resize", "640x480", "in.pdf[0]", "out.png"]);
}

#[test]
fn convert_args_with_one_dimension() {
    let a = image_convert_args("i", "o", &opts(Some(640), None, None, None));
    assert_eq!(a, vec!["-quality", "85", "-resize", "640x", "i[0]", "o"]);
    let b = image_convert_args("i", "o", &opts(None, Some(10), Some(0), None));
    assert_eq!(b, vec!["-quality", "0", "-resize", "x10", "i[0]", "o"]);
}

#[test]
fn ffmpeg_args_plain() {
    let a = video_thumbnail_args("v.mp4", "t.png", &opts(None, None, None, None));
    assert_eq!(
        a,
        vec!["-y", "-i", "v.mp4", "-vf", "thumbnail", "-frames:v", "1", "-ss", "00:00:01.000", "t.png"]
    );
    let d = video_thumbnail_args("v.mp4", "t.png", &PreviewOptions::default());
    assert_eq!(d, a);
}

#[test]
fn ffmpeg_args_with_scale_and_time() {
    let a = video_thumbnail_args("v.mp4", "t.png", &opts(Some(1280), Some(720), Some(5), Some("00:01:30.000")));
    assert_eq!(
        a,
        vec![
            "-y", "-i", "v.mp4", "-vf", "thumbnail,scale=1280:720", "-frames:v", "1", "-ss",
            "00:01:30.000", "t.png"
        ]
    );
}

#[test]
fn ffmpeg_args_with_one_dimension() {
    let a = video_thumbnail_args("v", "t", &opts(Some(320), None, None, None));
    assert_eq!(a[4], "thumbnail,scale=320:-1");
    let b = video_thumbnail_args("v", "t", &opts(None, Some(200), None, None));
    assert_eq!(b[4], "thumbnail,scale=-1:200");
}

#[test]
fn unoconv_args() {
    let a = document_pdf_args("r.docx", "/tmp/d/temp_document.pdf");
    assert_eq!(a, vec!["-e", "PageRange=1", "-o", "/tmp/d/temp_document.pdf", "r.docx"]);
}

#[test]
fn plans_per_kind() {
    let o = opts(Some(2), Some(3), None, None);
    let image = preview_plan(FileType::Image, "i.png", "o.jpg", "p.pdf", &o);
    assert_eq!(image.len(), 1);
    assert_eq!(image[0].tool, ExternalTool::Convert);
    assert_eq!(image[0].args, vec!["-quality", "85", "-resize", "2x3", "i.png[0]", "o.jpg"]);

    let video = preview_plan(FileType::Video, "v.mp4", "o.jpg", "p.pdf", &o);
    assert_eq!(video.len(), 1);
    assert_eq!(video[0].tool, ExternalTool::Ffmpeg);

    for kind in [FileType::Document, FileType::Other] {
        let doc = preview_plan(kind, "d.doc", "o.jpg", "p.pdf", &o);
        assert_eq!(doc.len(), 2);
        assert_eq!(doc[0].tool, ExternalTool::Unoconv);
        assert_eq!(doc[0].args, vec!["-e", "PageRange=1", "-o", "p.pdf", "d.doc"]);
        assert_eq!(doc[1].tool, ExternalTool::Convert);
        assert_eq!(doc[1].args, vec!["-quality", "85", "-resize", "2x3", "p.pdf[0]", "o.jpg"]);
    }
}

#[test]
fn tool_names() {
    assert_eq!(ExternalTool::Convert.program(), "convert");
    assert_eq!(ExternalTool::Ffmpeg.program(), "ffmpeg");
    assert_eq!(ExternalTool::Unoconv.program(), "unoconv");
    assert_eq!(ExternalTool::Convert.failure_label(), "ImageMagick");
    assert_eq!(ExternalTool::Ffmpeg.failure_label(), "FFmpeg");
    assert_eq!(ExternalTool::Unoconv.failure_label(), "unoconv");
}

#[test]
fn tool_outcomes() {
    assert!(check_tool_outcome(ExternalTool::Convert, ToolOutcome::Finished { success: true, stderr: String::new() }).is_ok());
    match check_tool_outcome(ExternalTool::Ffmpeg, ToolOutcome::Finished { success: false, stderr: "bad input".to_string() }) {
        Err(PreviewError::ProcessingFailed(m)) => assert_eq!(m, "FFmpeg failed: bad input"),
        other => panic!("unexpected {:?}", other),
    }
    match check_tool_outcome(ExternalTool::Convert, ToolOutcome::Finished { success: false, stderr: "x".to_string() }) {
        Err(PreviewError::ProcessingFailed(m)) => assert_eq!(m, "ImageMagick failed: x"),
        other => panic!("unexpected {:?}", other),
    }
    match check_tool_outcome(ExternalTool::Unoconv, ToolOutcome::LaunchFailed("not found".to_string())) {
        Err(PreviewError::ExternalToolError(t, m)) => {
            assert_eq!(t, "unoconv");
            assert_eq!(m, "not found");
        }
        other => panic!("unexpected {:?}", other),
    }
}

fn finished(success: bool, stderr: &str) -> ToolOutcome {
    ToolOutcome::Finished { success, stderr: stderr.to_string() }
}

#[test]
fn document_plan_runs_both_tools_in_turn() {
    let plan = preview_plan(FileType::Document, "in.docx", "out.png", "t.pdf", &opts(None, None, None, None));
    assert!(matches!(first_tool(&plan), PlanStep::RunTool(0)));
    assert!(matches!(after_tool(&plan, 0, finished(true, "")), PlanStep::RunTool(1)));
    assert!(matches!(after_tool(&plan, 1, finished(true, "")), PlanStep::Done));
}

#[test]
fn document_plan_stops_at_unoconv_failure() {
    let plan = preview_plan(FileType::Document, "in.docx", "out.png", "t.pdf", &opts(None, None, None, None));
    match after_tool(&plan, 0, finished(false, "no office")) {
        PlanStep::Stopped(PreviewError::ProcessingFailed(m)) => assert_eq!(m, "unoconv failed: no office"),
        other => panic!("unexpected {:?}", other),
    }
    match after_tool(&plan, 0, ToolOutcome::LaunchFailed("missing".to_string())) {
        PlanStep::Stopped(PreviewError::ExternalToolError(t, m)) => {
            assert_eq!(t, "unoconv");
            assert_eq!(m, "missing");
        }
        other => panic!("unexpected {:?}", other),
    }
}

#[test]
fn document_plan_stops_at_convert_failure() {
    let plan = preview_plan(FileType::Document, "in.docx", "out.png", "t.pdf", &opts(None, None, None, None));
    match after_tool(&plan, 1, finished(false, "bad pdf")) {
        PlanStep::Stopped(PreviewError::ProcessingFailed(m)) => assert_eq!(m, "ImageMagick failed: bad pdf"),
        other => panic!("unexpected {:?}", other),
    }
}

#[test]
fn single_tool_plans_end_after_their_tool() {
    let plan = preview_plan(FileType::Video, "in.mp4", "out.png", "t.pdf", &opts(None, None, None, None));
    assert!(matches!(first_tool(&plan), PlanStep::RunTool(0)));
    assert!(matches!(after_tool(&plan, 0, finished(true, "")), PlanStep::Done));
    assert!(matches!(first_tool(&Vec::new()), PlanStep::Done));
}

#[test]
fn options_in_range_are_accepted() {
    assert!(validate_options(&opts(None, None, None, None)).is_ok());
    assert!(validate_options(&opts(Some(1), Some(2000), Some(100), Some("00:00:01.000"))).is_ok());
    assert!(validate_options(&PreviewOptions::default()).is_ok());
}

#[test]
fn options_out_of_range_are_invalid_input() {
    let cases = [
        (opts(Some(0), None, None, None), "width must be between 1 and 2000"),
        (opts(Some(2001), Some(0), None, None), "width must be between 1 and 2000"),
        (opts(None, Some(2001), None, None), "height must be between 1 and 2000"),
        (opts(None, None, Some(0), None), "quality must be between 1 and 100"),
        (opts(None, None, Some(101), None), "quality must be between 1 and 100"),
        (opts(None, None, None, Some("1:00:00.000")), "preview_time must have the form HH:MM:SS.mmm"),
    ];
    for (o, expected) in cases.iter() {
        match validate_options(o) {
            Err(PreviewError::InvalidInput(m)) => assert_eq!(m, *expected),
            other => panic!("unexpected {:?}", other),
        }
    }
}

#[test]
fn time_texts() {
    assert!(is_time_text("00:00:01.000"));
    assert!(is_time_text("12:34:56.789"));
    assert!(!is_time_text("00:00:01"));
    assert!(!is_time_text("00-00-01.000"));
    assert!(!is_time_text("0a:00:01.000"));
    assert!(!is_time_text(""));
}

#[test]
fn kind_ignores_extension_case() {
    for (lower, upper) in [("a.png", "b.PNG"), ("a.mp4", "b.Mp4"), ("a.docx", "b.DOCX"), ("a.mp3", "b.MP3"), ("a.pdf", "b.PdF")] {
        assert_eq!(detect_file_type(lower), detect_file_type(upper));
    }
}

#[test]
fn decoded_inputs_are_routed_by_their_extension() {
    assert_eq!(detect_file_type("/tmp/w/input.png"), FileType::Image);
    assert_eq!(detect_file_type("/tmp/w/input.jpg"), FileType::Image);
    assert_eq!(detect_file_type("/tmp/w/input.gif"), FileType::Image);
    assert_eq!(detect_file_type("/tmp/w/input.pdf"), FileType::Image);
    assert_eq!(detect_file_type("/tmp/w/input.mp4"), FileType::Video);
    assert_eq!(detect_file_type("/tmp/w/input.bin"), FileType::Document);
}
