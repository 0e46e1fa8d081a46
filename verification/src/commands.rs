//! The external tools that turn an input into a preview: which tools run,
//! with which arguments, and what their outcome means.

use vstd::prelude::*;
use vstd::string::*;

use crate::error::PreviewError;
use crate::text::{chars_of, decimal, decimal_string, has_prefix};
use crate::types::{FileType, PreviewOptions};

verus! {

/// The characters of each string.
pub open spec fn texts(v: Seq<String>) -> Seq<Seq<char>> {
    v.map_values(|s: String| s@)
}

proof fn lemma_texts_push(v: Seq<String>, s: String)
    ensures
        texts(v.push(s)) == texts(v).push(s@),
{
    assert(texts(v.push(s)) =~= texts(v).push(s@));
}

/// A program the preview is made with.
#[derive(Debug, Clone, Copy, PartialEq, Eq, Structural)]
pub enum ExternalTool {
    /// ImageMagick's `convert`.
    Convert,
    /// `ffmpeg`.
    Ffmpeg,
    /// LibreOffice's `unoconv`.
    Unoconv,
}

impl ExternalTool {
    /// The name the program is run by.
    pub open spec fn program_name(self) -> Seq<char> {
        match self {
            ExternalTool::Convert => "convert"@,
            ExternalTool::Ffmpeg => "ffmpeg"@,
            ExternalTool::Unoconv => "unoconv"@,
        }
    }

    /// The name its failures are reported under.
    pub open spec fn failure_name(self) -> Seq<char> {
        match self {
            ExternalTool::Convert => "ImageMagick"@,
            ExternalTool::Ffmpeg => "FFmpeg"@,
            ExternalTool::Unoconv => "unoconv"@,
        }
    }

    /// The name the program is run by: "convert", "ffmpeg" or "unoconv".
    pub fn program(&self) -> (r: &'static str)
        ensures
            r@ == self.program_name(),
    {
        match self {
            ExternalTool::Convert => "convert",
            ExternalTool::Ffmpeg => "ffmpeg",
            ExternalTool::Unoconv => "unoconv",
        }
    }

    /// The name failures of the program are reported under.
    pub fn failure_label(&self) -> (r: &'static str)
        ensures
            r@ == self.failure_name(),
    {
        match self {
            ExternalTool::Convert => "ImageMagick",
            ExternalTool::Ffmpeg => "FFmpeg",
            ExternalTool::Unoconv => "unoconv",
        }
    }
}

/// The quality used when none is asked for.
pub open spec fn default_quality() -> u32 {
    85
}

/// The video position used when no preview time is given.
pub open spec fn default_preview_time() -> Seq<char> {
    "00:00:01.000"@
}

/// `-quality` and the quality asked for, or the default quality.
pub open spec fn quality_args(o: PreviewOptions) -> Seq<Seq<char>> {
    match o.quality {
        Some(q) => seq!["-quality"@, decimal(q as nat)],
        None => seq!["-quality"@, decimal(default_quality() as nat)],
    }
}

/// The ImageMagick geometry of the dimensions given: `WxH`, `Wx` for a
/// width alone (the height follows the aspect ratio), `xH` for a height
/// alone.
pub open spec fn geometry(w: Option<u32>, h: Option<u32>) -> Seq<char> {
    match (w, h) {
        (Some(w), Some(h)) => decimal(w as nat) + "x"@ + decimal(h as nat),
        (Some(w), None) => decimal(w as nat) + "x"@,
        (None, Some(h)) => "x"@ + decimal(h as nat),
        (None, None) => Seq::empty(),
    }
}

/// `-resize` and the geometry, when a width or a height is given.
pub open spec fn resize_args(o: PreviewOptions) -> Seq<Seq<char>> {
    if o.width is Some || o.height is Some {
        seq!["-resize"@, geometry(o.width, o.height)]
    } else {
        seq![]
    }
}

/// The arguments of `convert`: quality and size first, then the first
/// page or frame of the input, then the output.
pub open spec fn convert_args(input: Seq<char>, output: Seq<char>, o: PreviewOptions) -> Seq<
    Seq<char>,
> {
    quality_args(o) + resize_args(o) + seq![input + "[0]"@, output]
}

/// The video filter: a thumbnail frame, scaled to the dimensions given;
/// a missing dimension is `-1`, which follows the aspect ratio.
pub open spec fn video_filter(o: PreviewOptions) -> Seq<char> {
    match (o.width, o.height) {
        (Some(w), Some(h)) => "thumbnail,scale="@ + decimal(w as nat) + ":"@ + decimal(h as nat),
        (Some(w), None) => "thumbnail,scale="@ + decimal(w as nat) + ":-1"@,
        (None, Some(h)) => "thumbnail,scale=-1:"@ + decimal(h as nat),
        (None, None) => "thumbnail"@,
    }
}

/// `-ss` and the preview time given, or the default preview time.
pub open spec fn seek_args(o: PreviewOptions) -> Seq<Seq<char>> {
    match o.preview_time {
        Some(t) => seq!["-ss"@, t@],
        None => seq!["-ss"@, default_preview_time()],
    }
}

/// A width or height, if given, is between 1 and 2000 pixels.
pub open spec fn dimension_ok(d: Option<u32>) -> bool {
    match d {
        Some(v) => 1 <= v <= 2000,
        None => true,
    }
}

/// A quality, if given, is between 1 and 100.
pub open spec fn quality_ok(q: Option<u32>) -> bool {
    match q {
        Some(v) => 1 <= v <= 100,
        None => true,
    }
}

/// A decimal digit.
pub open spec fn is_digit(c: char) -> bool {
    '0' <= c <= '9'
}

/// A time of the form `HH:MM:SS.mmm`.
pub open spec fn time_text_ok(t: Seq<char>) -> bool {
    t.len() == 12 && forall|i: int|
        0 <= i < 12 ==> if i == 2 || i == 5 {
            t[i] == ':'
        } else if i == 8 {
            t[i] == '.'
        } else {
            is_digit(#[trigger] t[i])
        }
}

/// A preview time, if given, has the form `HH:MM:SS.mmm`.
pub open spec fn preview_time_ok(t: Option<String>) -> bool {
    match t {
        Some(s) => time_text_ok(s@),
        None => true,
    }
}

/// Options within their documented ranges.
pub open spec fn options_ok(o: PreviewOptions) -> bool {
    dimension_ok(o.width) && dimension_ok(o.height) && quality_ok(o.quality) && preview_time_ok(
        o.preview_time,
    )
}

/// What is wrong with options out of range: the first of width, height,
/// quality and preview time that is.
pub open spec fn options_fault(o: PreviewOptions) -> Seq<char> {
    if !dimension_ok(o.width) {
        "width must be between 1 and 2000"@
    } else if !dimension_ok(o.height) {
        "height must be between 1 and 2000"@
    } else if !quality_ok(o.quality) {
        "quality must be between 1 and 100"@
    } else {
        "preview_time must have the form HH:MM:SS.mmm"@
    }
}

/// Whether `t` has the form `HH:MM:SS.mmm`.
pub fn is_time_text(t: &str) -> (r: bool)
    ensures
        r == time_text_ok(t@),
{
    let v = chars_of(t);
    if v.len() != 12 {
        return false;
    }
    let mut i: usize = 0;
    while i < 12
        invariant
            v@ == t@,
            v@.len() == 12,
            i <= 12,
            forall|k: int|
                0 <= k < i ==> if k == 2 || k == 5 {
                    t@[k] == ':'
                } else if k == 8 {
                    t@[k] == '.'
                } else {
                    is_digit(#[trigger] t@[k])
                },
        decreases 12 - i,
    {
        let c: char = v[i];
        let ok: bool = if i == 2 || i == 5 {
            c == ':'
        } else if i == 8 {
            c == '.'
        } else {
            '0' <= c && c <= '9'
        };
        if !ok {
            return false;
        }
        i = i + 1;
    }
    true
}

/// Checks the options against their documented ranges: width and height
/// 1 to 2000, quality 1 to 100, preview time `HH:MM:SS.mmm`. Options out
/// of range are refused as invalid input, naming the first fault.
pub fn validate_options(options: &PreviewOptions) -> (r: Result<(), PreviewError>)
    ensures
        r is Ok <==> options_ok(*options),
        r matches Err(e) ==> (e matches PreviewError::InvalidInput(m) && m@ == options_fault(
            *options,
        )),
{
    let width_ok: bool = match options.width {
        Some(v) => 1 <= v && v <= 2000,
        None => true,
    };
    if !width_ok {
        return Err(PreviewError::InvalidInput(String::from_str("width must be between 1 and 2000")));
    }
    let height_ok: bool = match options.height {
        Some(v) => 1 <= v && v <= 2000,
        None => true,
    };
    if !height_ok {
        return Err(
            PreviewError::InvalidInput(String::from_str("height must be between 1 and 2000")),
        );
    }
    let quality_fine: bool = match options.quality {
        Some(v) => 1 <= v && v <= 100,
        None => true,
    };
    if !quality_fine {
        return Err(PreviewError::InvalidInput(String::from_str("quality must be between 1 and 100")));
    }
    let time_fine: bool = match &options.preview_time {
        Some(t) => is_time_text(t.as_str()),
        None => true,
    };
    if !time_fine {
        return Err(
            PreviewError::InvalidInput(
                String::from_str("preview_time must have the form HH:MM:SS.mmm"),
            ),
        );
    }
    Ok(())
}

/// The arguments of `ffmpeg`: overwrite, read the input, take one
/// thumbnail frame at the preview time, write the output.
pub open spec fn ffmpeg_args(input: Seq<char>, output: Seq<char>, o: PreviewOptions) -> Seq<
    Seq<char>,
> {
    seq!["-y"@, "-i"@, input, "-vf"@, video_filter(o), "-frames:v"@, "1"@] + seek_args(o)
        + seq![output]
}

/// The arguments of `unoconv`: export the first page of the input as
/// the given PDF.
pub open spec fn unoconv_args(input: Seq<char>, pdf: Seq<char>) -> Seq<Seq<char>> {
    seq!["-e"@, "PageRange=1"@, "-o"@, pdf, input]
}

/// The geometry text of the dimensions given.
pub fn geometry_text(width: Option<u32>, height: Option<u32>) -> (r: String)
    ensures
        r@ == geometry(width, height),
{
    match (width, height) {
        (Some(w), Some(h)) => decimal_string(w as u64).concat("x").concat(
            decimal_string(h as u64).as_str(),
        ),
        (Some(w), None) => decimal_string(w as u64).concat("x"),
        (None, Some(h)) => String::from_str("x").concat(decimal_string(h as u64).as_str()),
        (None, None) => {
            proof {
                reveal_strlit("");
            }
            String::from_str("")
        },
    }
}

/// The arguments of ImageMagick's `convert` for an image or a PDF.
pub fn image_convert_args(input: &str, output: &str, options: &PreviewOptions) -> (r: Vec<String>)
    ensures
        texts(r@) == convert_args(input@, output@, *options),
{
    let mut args: Vec<String> = Vec::new();
    let ghost mut expected: Seq<Seq<char>> = seq![];
    let a = String::from_str("-quality");
    proof { lemma_texts_push(args@, a); }
    args.push(a);
    let quality: u32 = match options.quality {
        Some(q) => q,
        None => 85,
    };
    let b = decimal_string(quality as u64);
    proof { lemma_texts_push(args@, b); }
    args.push(b);
    proof {
        expected = quality_args(*options);
        assert(texts(args@) =~= expected);
    }
    if options.width.is_some() || options.height.is_some() {
        let a = String::from_str("-resize");
        proof { lemma_texts_push(args@, a); }
        args.push(a);
        let b = geometry_text(options.width, options.height);
        proof { lemma_texts_push(args@, b); }
        args.push(b);
    }
    proof {
        expected = expected + resize_args(*options);
        assert(texts(args@) =~= expected);
    }
    let a = String::from_str(input).concat("[0]");
    proof { lemma_texts_push(args@, a); }
    args.push(a);
    let b = String::from_str(output);
    proof { lemma_texts_push(args@, b); }
    args.push(b);
    proof {
        assert(texts(args@) =~= convert_args(input@, output@, *options));
    }
    args
}

/// The arguments of `ffmpeg` for a video thumbnail.
pub fn video_thumbnail_args(input: &str, output: &str, options: &PreviewOptions) -> (r: Vec<
    String,
>)
    ensures
        texts(r@) == ffmpeg_args(input@, output@, *options),
{
    let mut args: Vec<String> = Vec::new();
    let a0 = String::from_str("-y");
    proof { lemma_texts_push(args@, a0); }
    args.push(a0);
    let a1 = String::from_str("-i");
    proof { lemma_texts_push(args@, a1); }
    args.push(a1);
    let a2 = String::from_str(input);
    proof { lemma_texts_push(args@, a2); }
    args.push(a2);
    let a3 = String::from_str("-vf");
    proof { lemma_texts_push(args@, a3); }
    args.push(a3);
    let filter = match (options.width, options.height) {
        (Some(w), Some(h)) => String::from_str("thumbnail,scale=").concat(
            decimal_string(w as u64).as_str(),
        ).concat(":").concat(decimal_string(h as u64).as_str()),
        (Some(w), None) => String::from_str("thumbnail,scale=").concat(
            decimal_string(w as u64).as_str(),
        ).concat(":-1"),
        (None, Some(h)) => String::from_str("thumbnail,scale=-1:").concat(
            decimal_string(h as u64).as_str(),
        ),
        (None, None) => String::from_str("thumbnail"),
    };
    proof { lemma_texts_push(args@, filter); }
    args.push(filter);
    let a5 = String::from_str("-frames:v");
    proof { lemma_texts_push(args@, a5); }
    args.push(a5);
    let a6 = String::from_str("1");
    proof { lemma_texts_push(args@, a6); }
    args.push(a6);
    let ghost base = texts(args@);
    let s0 = String::from_str("-ss");
    proof { lemma_texts_push(args@, s0); }
    args.push(s0);
    let s1 = match &options.preview_time {
        Some(t) => t.clone(),
        None => String::from_str("00:00:01.000"),
    };
    proof { lemma_texts_push(args@, s1); }
    args.push(s1);
    proof {
        assert(texts(args@) =~= base + seek_args(*options));
    }
    let last = String::from_str(output);
    proof { lemma_texts_push(args@, last); }
    args.push(last);
    proof {
        assert(texts(args@) =~= ffmpeg_args(input@, output@, *options));
    }
    args
}

/// The arguments of `unoconv` to export the first page of a document
/// as a PDF.
pub fn document_pdf_args(input: &str, pdf: &str) -> (r: Vec<String>)
    ensures
        texts(r@) == unoconv_args(input@, pdf@),
{
    let mut args: Vec<String> = Vec::new();
    let a0 = String::from_str("-e");
    proof { lemma_texts_push(args@, a0); }
    args.push(a0);
    let a1 = String::from_str("PageRange=1");
    proof { lemma_texts_push(args@, a1); }
    args.push(a1);
    let a2 = String::from_str("-o");
    proof { lemma_texts_push(args@, a2); }
    args.push(a2);
    let a3 = String::from_str(pdf);
    proof { lemma_texts_push(args@, a3); }
    args.push(a3);
    let a4 = String::from_str(input);
    proof { lemma_texts_push(args@, a4); }
    args.push(a4);
    proof {
        assert(texts(args@) =~= unoconv_args(input@, pdf@));
    }
    args
}

/// The file name a document's intermediate PDF is written under.
pub fn intermediate_pdf_name() -> (r: &'static str)
    ensures
        r@ == "temp_document.pdf"@,
{
    "temp_document.pdf"
}

/// One run of an external program.
pub struct ToolInvocation {
    pub tool: ExternalTool,
    pub args: Vec<String>,
}

/// A run as plain values: the program and its arguments.
pub open spec fn invocation_view(i: ToolInvocation) -> (ExternalTool, Seq<Seq<char>>) {
    (i.tool, texts(i.args@))
}

/// The programs that turn an input of the given kind into a preview, in
/// the order they run: `convert` for images (and PDF files), `ffmpeg`
/// for videos, and for documents and anything else `unoconv` to a PDF
/// followed by `convert` of that PDF.
pub open spec fn plan_for(
    kind: FileType,
    input: Seq<char>,
    output: Seq<char>,
    pdf: Seq<char>,
    o: PreviewOptions,
) -> Seq<(ExternalTool, Seq<Seq<char>>)> {
    match kind {
        FileType::Image => seq![(ExternalTool::Convert, convert_args(input, output, o))],
        FileType::Video => seq![(ExternalTool::Ffmpeg, ffmpeg_args(input, output, o))],
        _ => seq![
            (ExternalTool::Unoconv, unoconv_args(input, pdf)),
            (ExternalTool::Convert, convert_args(pdf, output, o)),
        ],
    }
}

/// The programs to run, with their arguments, to make a preview of
/// `input` at `output`; `pdf` is where a document's intermediate PDF
/// goes.
pub fn preview_plan(
    kind: FileType,
    input: &str,
    output: &str,
    pdf: &str,
    options: &PreviewOptions,
) -> (r: Vec<ToolInvocation>)
    ensures
        r@.map_values(|i: ToolInvocation| invocation_view(i)) == plan_for(
            kind,
            input@,
            output@,
            pdf@,
            *options,
        ),
{
    let mut plan: Vec<ToolInvocation> = Vec::new();
    match kind {
        FileType::Image => {
            plan.push(
                ToolInvocation {
                    tool: ExternalTool::Convert,
                    args: image_convert_args(input, output, options),
                },
            );
        },
        FileType::Video => {
            plan.push(
                ToolInvocation {
                    tool: ExternalTool::Ffmpeg,
                    args: video_thumbnail_args(input, output, options),
                },
            );
        },
        _ => {
            plan.push(
                ToolInvocation { tool: ExternalTool::Unoconv, args: document_pdf_args(input, pdf) },
            );
            plan.push(
                ToolInvocation {
                    tool: ExternalTool::Convert,
                    args: image_convert_args(pdf, output, options),
                },
            );
        },
    }
    assert(plan@.map_values(|i: ToolInvocation| invocation_view(i)) =~= plan_for(
        kind,
        input@,
        output@,
        pdf@,
        *options,
    ));
    plan
}

/// How a run of an external program ended.
pub enum ToolOutcome {
    /// The program could not be started; the text of the error.
    LaunchFailed(String),
    /// The program ran; whether it succeeded, and what it wrote to its
    /// error stream.
    Finished { success: bool, stderr: String },
}

/// Whether a run succeeded.
pub open spec fn succeeded(outcome: ToolOutcome) -> bool {
    match outcome {
        ToolOutcome::LaunchFailed(_) => false,
        ToolOutcome::Finished { success, stderr: _ } => success,
    }
}

/// The error a failed run stands for: a program that could not be
/// started is an external tool error naming it, with the text of the
/// launch error; a program that failed is a processing failure, named
/// after the tool, with its error output.
pub open spec fn tool_error(tool: ExternalTool, outcome: ToolOutcome, e: PreviewError) -> bool {
    match outcome {
        ToolOutcome::LaunchFailed(m) => e matches PreviewError::ExternalToolError(t, x) && t@
            == tool.program_name() && x@ == m@,
        ToolOutcome::Finished { success, stderr } => !success && (e matches PreviewError::ProcessingFailed(
            x,
        ) && x@ == tool.failure_name() + " failed: "@ + stderr@),
    }
}

/// What a run's outcome means: a program that could not be started is
/// an external tool error naming it, a program that failed is a
/// processing failure with its error output, and a success is `Ok`.
pub fn check_tool_outcome(tool: ExternalTool, outcome: ToolOutcome) -> (r: Result<(), PreviewError>)
    ensures
        r is Ok <==> succeeded(outcome),
        r matches Err(e) ==> tool_error(tool, outcome, e),
{
    match outcome {
        ToolOutcome::LaunchFailed(e) => Err(
            PreviewError::ExternalToolError(String::from_str(tool.program()), e),
        ),
        ToolOutcome::Finished { success, stderr } => {
            if success {
                Ok(())
            } else {
                Err(
                    PreviewError::ProcessingFailed(
                        String::from_str(tool.failure_label()).concat(" failed: ").concat(
                            stderr.as_str(),
                        ),
                    ),
                )
            }
        },
    }
}

/// Where running a plan stands.
#[derive(Debug)]
pub enum PlanStep {
    /// Run the tool at this position of the plan.
    RunTool(usize),
    /// Every tool succeeded.
    Done,
    /// A tool failed; the plan stops with this error.
    Stopped(PreviewError),
}

/// The step after the tool at position `index` of a plan of `len` tools
/// ran with `outcome`: on success the next tool, or done after the last;
/// on failure, stop with the tool's error.
pub open spec fn is_step_after(
    len: nat,
    index: nat,
    tool: ExternalTool,
    outcome: ToolOutcome,
    r: PlanStep,
) -> bool {
    if succeeded(outcome) {
        if index + 1 < len {
            r == PlanStep::RunTool((index + 1) as usize)
        } else {
            r is Done
        }
    } else {
        r matches PlanStep::Stopped(e) && tool_error(tool, outcome, e)
    }
}

/// The first step of running a plan: its first tool, or done when it has
/// none.
pub fn first_tool(plan: &Vec<ToolInvocation>) -> (r: PlanStep)
    ensures
        plan@.len() == 0 ==> r is Done,
        plan@.len() > 0 ==> r == PlanStep::RunTool(0),
{
    if plan.len() == 0 {
        PlanStep::Done
    } else {
        PlanStep::RunTool(0)
    }
}

/// The step after the tool at position `index` of the plan ran with
/// `outcome`: the first failure stops the plan with that tool's error, so
/// no later tool runs; the plan is done when its last tool succeeds.
pub fn after_tool(plan: &Vec<ToolInvocation>, index: usize, outcome: ToolOutcome) -> (r: PlanStep)
    requires
        index < plan@.len(),
    ensures
        is_step_after(plan@.len(), index as nat, plan@[index as int].tool, outcome, r),
{
    let tool = plan[index].tool;
    match check_tool_outcome(tool, outcome) {
        Err(e) => PlanStep::Stopped(e),
        Ok(()) => {
            if index < plan.len() - 1 {
                PlanStep::RunTool(index + 1)
            } else {
                PlanStep::Done
            }
        },
    }
}

/// Making a document's preview: `unoconv` runs first, then `convert`. A
/// failure of `unoconv` stops with its error and `convert` never runs;
/// a failure of `convert` stops with its error; the preview is made only
/// when both succeed.
pub proof fn law_document_plan(
    kind: FileType,
    input: Seq<char>,
    output: Seq<char>,
    pdf: Seq<char>,
    o: PreviewOptions,
    first: ToolOutcome,
    second: ToolOutcome,
    after_first: PlanStep,
    after_second: PlanStep,
)
    requires
        kind == FileType::Document || kind == FileType::Other,
        is_step_after(2, 0, ExternalTool::Unoconv, first, after_first),
        is_step_after(2, 1, ExternalTool::Convert, second, after_second),
    ensures
        plan_for(kind, input, output, pdf, o).len() == 2,
        plan_for(kind, input, output, pdf, o)[0].0 == ExternalTool::Unoconv,
        plan_for(kind, input, output, pdf, o)[1].0 == ExternalTool::Convert,
        !succeeded(first) ==> (after_first matches PlanStep::Stopped(e) && tool_error(
            ExternalTool::Unoconv,
            first,
            e,
        )),
        succeeded(first) ==> after_first == PlanStep::RunTool(1),
        !succeeded(second) ==> (after_second matches PlanStep::Stopped(e) && tool_error(
            ExternalTool::Convert,
            second,
            e,
        )),
        succeeded(second) ==> after_second is Done,
{
}

/// Whatever the kind of the input, the plan reads the input and its last
/// program writes the requested output: the last argument of its last
/// run is `output`. An image is read by `convert` (its first page or
/// frame), a video by `ffmpeg`; a document is read by `unoconv`, which
/// writes the intermediate PDF (`-o pdf`), and `convert` then reads that
/// PDF.
pub proof fn law_plan_writes_output(
    kind: FileType,
    input: Seq<char>,
    output: Seq<char>,
    pdf: Seq<char>,
    o: PreviewOptions,
)
    ensures
        ({
            let plan = plan_for(kind, input, output, pdf, o);
            &&& plan.len() > 0
            &&& plan.last().1.len() > 0
            &&& plan.last().1.last() == output
            &&& kind == FileType::Image ==> plan.len() == 1 && plan[0].0 == ExternalTool::Convert
                && plan[0].1[plan[0].1.len() - 2] == input + "[0]"@
            &&& kind == FileType::Video ==> plan.len() == 1 && plan[0].0 == ExternalTool::Ffmpeg
                && plan[0].1[1] == "-i"@ && plan[0].1[2] == input
            &&& (kind != FileType::Image && kind != FileType::Video) ==> plan.len() == 2
                && plan[0].0 == ExternalTool::Unoconv && plan[0].1.last() == input
                && plan[0].1[2] == "-o"@ && plan[0].1[3] == pdf && plan[1].0
                == ExternalTool::Convert && plan[1].1[plan[1].1.len() - 2] == pdf + "[0]"@
        }),
{
    let plan = plan_for(kind, input, output, pdf, o);
    let c_in = convert_args(input, output, o);
    let c_pdf = convert_args(pdf, output, o);
    let f = ffmpeg_args(input, output, o);
    assert(c_in == (quality_args(o) + resize_args(o)) + seq![input + "[0]"@, output]);
    assert(c_pdf == (quality_args(o) + resize_args(o)) + seq![pdf + "[0]"@, output]);
    assert(f == (seq!["-y"@, "-i"@, input, "-vf"@, video_filter(o), "-frames:v"@, "1"@] + seek_args(
        o,
    )) + seq![output]);
    assert(c_in[c_in.len() - 2] == input + "[0]"@);
    assert(c_pdf[c_pdf.len() - 2] == pdf + "[0]"@);
    assert(f[1] == "-i"@ && f[2] == input);
}

/// A run's verdict depends only on how it exited, never on what it
/// wrote to its error stream: whatever that output, a run that exited
/// successfully succeeds, so the plan moves on to its next program or is
/// done, and one that exited with failure stops the plan with a
/// processing failure that names the program and carries that output.
pub proof fn law_verdict_by_exit_status(
    tool: ExternalTool,
    stderr: String,
    len: nat,
    index: nat,
    after_success: PlanStep,
    after_failure: PlanStep,
)
    requires
        index < len,
        is_step_after(len, index, tool, ToolOutcome::Finished { success: true, stderr }, after_success),
        is_step_after(len, index, tool, ToolOutcome::Finished { success: false, stderr }, after_failure),
    ensures
        succeeded(ToolOutcome::Finished { success: true, stderr }),
        !succeeded(ToolOutcome::Finished { success: false, stderr }),
        index + 1 < len ==> after_success == PlanStep::RunTool((index + 1) as usize),
        index + 1 == len ==> after_success is Done,
        after_failure matches PlanStep::Stopped(PreviewError::ProcessingFailed(m)) && m@
            == tool.failure_name() + " failed: "@ + stderr@,
{
}

/// The options are checked field by field, each given field against its
/// own range (width and height 1 to 2000, quality 1 to 100, preview time
/// `HH:MM:SS.mmm`) and a missing field never refused; no condition ties
/// one field to another, so leaving out any field of accepted options
/// keeps them accepted.
pub proof fn law_options_checked_field_by_field(o: PreviewOptions)
    ensures
        options_ok(o) <==> ((o.width matches Some(w) ==> 1 <= w <= 2000) && (o.height matches Some(
            h,
        ) ==> 1 <= h <= 2000) && (o.quality matches Some(q) ==> 1 <= q <= 100) && (
        o.preview_time matches Some(t) ==> time_text_ok(t@))),
        options_ok(o) ==> options_ok(
            PreviewOptions {
                width: None,
                height: o.height,
                quality: o.quality,
                preview_time: o.preview_time,
            },
        ),
        options_ok(o) ==> options_ok(
            PreviewOptions {
                width: o.width,
                height: None,
                quality: o.quality,
                preview_time: o.preview_time,
            },
        ),
        options_ok(o) ==> options_ok(
            PreviewOptions {
                width: o.width,
                height: o.height,
                quality: None,
                preview_time: o.preview_time,
            },
        ),
        options_ok(o) ==> options_ok(
            PreviewOptions { width: o.width, height: o.height, quality: o.quality, preview_time: None },
        ),
{
}

/// The options reach the programs: `convert` is given the quality asked
/// for (85 when none is), and is asked to resize exactly when a width or
/// a height is given, to a geometry that starts with the width given and
/// ends with the height given; `ffmpeg` takes one frame, seeks to the
/// preview time asked for (one second when none is), and scales only when
/// a width or a height is given.
pub proof fn law_plan_carries_options(
    input: Seq<char>,
    output: Seq<char>,
    o: PreviewOptions,
)
    ensures
        ({
            let c = convert_args(input, output, o);
            let sized = o.width is Some || o.height is Some;
            &&& c[0] == "-quality"@
            &&& c[1] == decimal(
                (match o.quality {
                    Some(q) => q,
                    None => 85u32,
                }) as nat,
            )
            &&& !sized ==> c.len() == 4
            &&& sized ==> c.len() == 6 && c[2] == "-resize"@
            &&& (o.width matches Some(w) ==> has_prefix(c[3], decimal(w as nat)) && sized)
            &&& (o.height matches Some(h) ==> c[3].len() >= decimal(h as nat).len() && c[3].subrange(
                c[3].len() - decimal(h as nat).len(),
                c[3].len() as int,
            ) == decimal(h as nat))
        }),
        ({
            let f = ffmpeg_args(input, output, o);
            &&& f.len() == 10
            &&& f[0] == "-y"@
            &&& f[5] == "-frames:v"@ && f[6] == "1"@
            &&& f[7] == "-ss"@
            &&& f[8] == (match o.preview_time {
                Some(t) => t@,
                None => "00:00:01.000"@,
            })
            &&& (o.width is None && o.height is None) == (f[4] == "thumbnail"@)
        }),
{
    reveal_strlit("thumbnail");
    reveal_strlit("thumbnail,scale=");
    reveal_strlit("thumbnail,scale=-1:");
    let c = convert_args(input, output, o);
    let f = ffmpeg_args(input, output, o);
    assert(c == quality_args(o) + resize_args(o) + seq![input + "[0]"@, output]);
    assert(f == seq!["-y"@, "-i"@, input, "-vf"@, video_filter(o), "-frames:v"@, "1"@] + seek_args(o)
        + seq![output]);
    if o.width is Some || o.height is Some {
        let g = geometry(o.width, o.height);
        assert(c[3] == g);
        if let Some(w) = o.width {
            assert(g.subrange(0, decimal(w as nat).len() as int) =~= decimal(w as nat));
        }
        if let Some(h) = o.height {
            let dh = decimal(h as nat);
            assert(g.subrange(g.len() - dh.len(), g.len() as int) =~= dh);
        }
        assert(f[4] != "thumbnail"@) by {
            assert(f[4].len() > "thumbnail"@.len());
        }
    }
}

/// A program that could not be started stops the plan with an external
/// tool error that names the program as it is run and carries the launch
/// error's text.
pub proof fn law_launch_failure_names_program(
    tool: ExternalTool,
    message: String,
    len: nat,
    index: nat,
    after: PlanStep,
)
    requires
        index < len,
        is_step_after(len, index, tool, ToolOutcome::LaunchFailed(message), after),
    ensures
        after matches PlanStep::Stopped(PreviewError::ExternalToolError(t, m)) && t@
            == tool.program_name() && m@ == message@,
        tool == ExternalTool::Convert ==> tool.program_name() == "convert"@,
        tool == ExternalTool::Ffmpeg ==> tool.program_name() == "ffmpeg"@,
        tool == ExternalTool::Unoconv ==> tool.program_name() == "unoconv"@,
{
}

/// Options out of range are refused with the message of their first
/// faulty field, in the order width, height, quality, preview time.
pub proof fn law_option_faults_in_order(o: PreviewOptions)
    ensures
        (o.width matches Some(w) && (w < 1 || w > 2000)) ==> options_fault(o)
            == "width must be between 1 and 2000"@,
        (o.width matches Some(w) ==> 1 <= w <= 2000) && (o.height matches Some(h) && (h < 1 || h
            > 2000)) ==> options_fault(o) == "height must be between 1 and 2000"@,
        (o.width matches Some(w) ==> 1 <= w <= 2000) && (o.height matches Some(h) ==> 1 <= h
            <= 2000) && (o.quality matches Some(q) && (q < 1 || q > 100)) ==> options_fault(o)
            == "quality must be between 1 and 100"@,
        (o.width matches Some(w) ==> 1 <= w <= 2000) && (o.height matches Some(h) ==> 1 <= h
            <= 2000) && (o.quality matches Some(q) ==> 1 <= q <= 100) && (o.preview_time matches Some(
            t,
        ) && !time_text_ok(t@)) ==> options_fault(o) == "preview_time must have the form HH:MM:SS.mmm"@,
{
}

} // verus!
