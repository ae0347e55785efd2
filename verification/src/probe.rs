//! Video metadata from the report of the probing tool.

use vstd::prelude::*;
use vstd::string::*;
use crate::command::{command_of, Command, CommandView, ToolRun};
use crate::error::GatewayError;
use crate::json::{
    integer_at, items_at, json_integer, json_items, json_member, json_text, json_tree, json_trees,
    member, parse_json, parsed_json, text_at, JsonTree,
};
use crate::numbers::{decimal_integer, parse_integer};

verus! {

/// The command that asks the probing tool for a quiet, JSON-formatted report of
/// the container and the streams of a file.
pub open spec fn probe_command_of(file_path: Seq<char>) -> CommandView {
    CommandView {
        program: "ffprobe"@,
        arguments: seq![
            "-v"@,
            "quiet"@,
            "-print_format"@,
            "json"@,
            "-show_format"@,
            "-show_streams"@,
            file_path,
        ],
    }
}

/// Builds the probing command for a file.
pub fn probe_command(file_path: &str) -> (r: Command)
    ensures
        r@ == probe_command_of(file_path@),
{
    let arguments: Vec<&str> = vec![
        "-v",
        "quiet",
        "-print_format",
        "json",
        "-show_format",
        "-show_streams",
        file_path,
    ];
    let r = command_of("ffprobe", &arguments);
    assert(r@.arguments =~= probe_command_of(file_path@).arguments);
    r
}

/// What is known of a video file.
#[derive(Debug, Clone)]
pub struct VideoMetadata {
    /// The container's duration in seconds as the tool wrote it, if it wrote
    /// one as text. The reader turns it into a number, and takes zero where it
    /// is absent or no number.
    pub duration_text: Option<String>,
    pub width: i32,
    pub height: i32,
    pub bitrate: Option<i64>,
    pub codec: Option<String>,
    pub file_size: u64,
}

/// The mathematical value of a `VideoMetadata`.
pub ghost struct VideoMetadataView {
    pub duration_text: Option<Seq<char>>,
    pub width: i32,
    pub height: i32,
    pub bitrate: Option<i64>,
    pub codec: Option<Seq<char>>,
    pub file_size: u64,
}

/// The characters of an optional string.
pub open spec fn optional_text(s: Option<String>) -> Option<Seq<char>> {
    match s {
        Some(t) => Some(t@),
        None => None,
    }
}

impl View for VideoMetadata {
    type V = VideoMetadataView;

    open spec fn view(&self) -> VideoMetadataView {
        VideoMetadataView {
            duration_text: optional_text(self.duration_text),
            width: self.width,
            height: self.height,
            bitrate: self.bitrate,
            codec: optional_text(self.codec),
            file_size: self.file_size,
        }
    }
}

/// Whether a stream of the report is a video stream.
pub open spec fn is_video_stream(stream: JsonTree) -> bool {
    text_at(member(stream, "codec_type"@)) == Some("video"@)
}

/// The position of the first video stream among the first `n` streams.
pub open spec fn first_video(streams: Seq<JsonTree>, n: int) -> Option<int>
    decreases n,
{
    if n <= 0 {
        None
    } else {
        match first_video(streams, n - 1) {
            Some(i) => Some(i),
            None => if is_video_stream(streams[n - 1]) {
                Some(n - 1)
            } else {
                None
            },
        }
    }
}

/// A dimension of a stream: the integer under the key, zero where there is
/// none, kept to 32 bits.
pub open spec fn dimension(stream: JsonTree, key: Seq<char>) -> i32 {
    match integer_at(member(stream, key)) {
        Some(n) => n as i32,
        None => 0i32,
    }
}

/// The bit rate of the container: the integer that the text under
/// `format.bit_rate` writes, if it writes one.
pub open spec fn bit_rate_of(report: JsonTree) -> Option<i64> {
    match text_at(format_member(report, "bit_rate"@)) {
        Some(t) => decimal_integer(t),
        None => None,
    }
}

/// A member of the report's `format` object.
pub open spec fn format_member(report: JsonTree, key: Seq<char>) -> Option<JsonTree> {
    match member(report, "format"@) {
        Some(f) => member(f, key),
        None => None,
    }
}

/// The metadata that a report and its video stream give for a file of the
/// given size.
pub open spec fn metadata_of(report: JsonTree, stream: JsonTree, file_size: u64)
    -> VideoMetadataView {
    VideoMetadataView {
        duration_text: text_at(format_member(report, "duration"@)),
        width: dimension(stream, "width"@),
        height: dimension(stream, "height"@),
        bitrate: bit_rate_of(report),
        codec: text_at(member(stream, "codec_name"@)),
        file_size,
    }
}

/// What a report gives for a file whose size is, or could not be, known.
pub open spec fn report_outcome(report: JsonTree, size: Result<u64, String>) -> Result<
    VideoMetadataView,
    GatewayError,
> {
    match items_at(member(report, "streams"@)) {
        None => Err(GatewayError::NoStreams),
        Some(streams) => match first_video(streams, streams.len() as int) {
            None => Err(GatewayError::NoVideoStream),
            Some(i) => match size {
                Err(e) => Err(GatewayError::SizeUnavailable(e)),
                Ok(n) => Ok(metadata_of(report, streams[i], n)),
            },
        },
    }
}

/// Whether a result is the given outcome.
pub open spec fn is_outcome(
    r: Result<VideoMetadata, GatewayError>,
    outcome: Result<VideoMetadataView, GatewayError>,
) -> bool {
    match r {
        Ok(m) => outcome == Ok::<VideoMetadataView, GatewayError>(m@),
        Err(e) => outcome == Err::<VideoMetadataView, GatewayError>(e),
    }
}

/// A report gives metadata only where it has a video stream: without one the
/// outcome is a failure that names the streams, whatever else the report
/// holds.
pub proof fn lemma_no_video_stream_no_metadata(report: JsonTree, size: Result<u64, String>)
    ensures
        report_outcome(report, size) is Ok ==> {
            &&& items_at(member(report, "streams"@)) is Some
            &&& first_video(
                items_at(member(report, "streams"@))->Some_0,
                items_at(member(report, "streams"@))->Some_0.len() as int,
            ) is Some
        },
        items_at(member(report, "streams"@)) is None ==> report_outcome(report, size) == Err::<
            VideoMetadataView,
            GatewayError,
        >(GatewayError::NoStreams),
        items_at(member(report, "streams"@)) is Some && first_video(
            items_at(member(report, "streams"@))->Some_0,
            items_at(member(report, "streams"@))->Some_0.len() as int,
        ) is None ==> report_outcome(report, size) == Err::<VideoMetadataView, GatewayError>(
            GatewayError::NoVideoStream,
        ),
{
}

/// The stream that `first_video` finds is a video stream, and none before it
/// is one.
pub proof fn lemma_first_video_is_first(streams: Seq<JsonTree>, n: int)
    requires
        0 <= n <= streams.len(),
    ensures
        match first_video(streams, n) {
            Some(i) => 0 <= i < n && is_video_stream(streams[i]) && forall|k: int|
                0 <= k < i ==> !is_video_stream(#[trigger] streams[k]),
            None => forall|k: int| 0 <= k < n ==> !is_video_stream(#[trigger] streams[k]),
        },
    decreases n,
{
    if n > 0 {
        lemma_first_video_is_first(streams, n - 1);
    }
}

/// A missing or unreadable duration, bit rate, codec or dimension never turns
/// metadata into a failure: whether a report gives metadata depends on its
/// streams and the file's size alone.
pub proof fn lemma_outcome_ignores_format(
    a: JsonTree,
    b: JsonTree,
    size: Result<u64, String>,
)
    requires
        items_at(member(a, "streams"@)) == items_at(member(b, "streams"@)),
    ensures
        report_outcome(a, size) is Ok <==> report_outcome(b, size) is Ok,
{
}

/// Once a video stream is found among the first streams, it stays the first
/// however many more are looked at.
proof fn lemma_first_video_stays(streams: Seq<JsonTree>, n: int, m: int)
    requires
        0 <= n <= m,
        first_video(streams, n) is Some,
    ensures
        first_video(streams, m) == first_video(streams, n),
    decreases m - n,
{
    if n < m {
        lemma_first_video_stays(streams, n, m - 1);
    }
}

/// The position of the first video stream of a list of streams.
pub fn find_video_stream(streams: &Vec<serde_json::Value>) -> (r: Option<usize>)
    ensures
        match r {
            Some(i) => first_video(json_trees(streams@), streams@.len() as int) == Some(i as int)
                && i < streams@.len(),
            None => first_video(json_trees(streams@), streams@.len() as int) is None,
        },
{
    let ghost trees = json_trees(streams@);
    let mut i: usize = 0;
    while i < streams.len()
        invariant
            i <= streams@.len(),
            trees == json_trees(streams@),
            first_video(trees, i as int) is None,
        decreases streams@.len() - i,
    {
        assert(trees[i as int] == json_tree(streams@[i as int]));
        let kind = json_member(&streams[i], "codec_type");
        let video = match kind {
            Some(k) => match json_text(k) {
                Some(t) => String::from_str(t) == String::from_str("video"),
                None => false,
            },
            None => false,
        };
        if video {
            proof {
                assert(first_video(trees, i + 1) == Some(i as int));
                lemma_first_video_stays(trees, i + 1, streams@.len() as int);
            }
            return Some(i);
        }
        i = i + 1;
    }
    None
}

/// The text under a key of an object, where there is one.
fn member_text(value: &serde_json::Value, key: &str) -> (r: Option<String>)
    ensures
        optional_text(r) == text_at(member(json_tree(*value), key@)),
{
    match json_member(value, key) {
        Some(v) => match json_text(v) {
            Some(t) => Some(String::from_str(t)),
            None => None,
        },
        None => None,
    }
}

/// A dimension of a stream.
fn stream_dimension(stream: &serde_json::Value, key: &str) -> (r: i32)
    ensures
        r == dimension(json_tree(*stream), key@),
{
    match json_member(stream, key) {
        Some(v) => match json_integer(v) {
            Some(n) => #[verifier::truncate]
            (n as i32),
            None => 0,
        },
        None => 0,
    }
}

/// Reads the metadata out of a parsed report. Fails where the report has no
/// list of streams, or none of them is a video stream, or the file's size
/// could not be read; missing dimensions are zero, a missing duration, bit
/// rate or codec is left out.
pub fn read_report(report: &serde_json::Value, size: Result<u64, String>) -> (r: Result<
    VideoMetadata,
    GatewayError,
>)
    ensures
        is_outcome(r, report_outcome(json_tree(*report), size)),
{
    let streams = match json_member(report, "streams") {
        Some(s) => match json_items(s) {
            Some(items) => items,
            None => { return Err(GatewayError::NoStreams); },
        },
        None => { return Err(GatewayError::NoStreams); },
    };
    let at = match find_video_stream(streams) {
        Some(i) => i,
        None => { return Err(GatewayError::NoVideoStream); },
    };
    let stream = &streams[at];
    assert(json_trees(streams@)[at as int] == json_tree(*stream));
    let format = json_member(report, "format");
    let duration_text = match format {
        Some(f) => member_text(f, "duration"),
        None => None,
    };
    let width = stream_dimension(stream, "width");
    let height = stream_dimension(stream, "height");
    let bitrate = match format {
        Some(f) => match member_text(f, "bit_rate") {
            Some(t) => parse_integer(t.as_str()),
            None => None,
        },
        None => None,
    };
    let codec = member_text(stream, "codec_name");
    match size {
        Err(e) => Err(GatewayError::SizeUnavailable(e)),
        Ok(file_size) => Ok(
            VideoMetadata { duration_text, width, height, bitrate, codec, file_size },
        ),
    }
}

/// What a run of the probing tool gives, before its report is read: the
/// failure, if the tool did not start or did not succeed.
pub open spec fn run_failure(run: ToolRun) -> Option<GatewayError> {
    match run {
        ToolRun::NotStarted(e) => Some(GatewayError::ProbeNotStarted(e)),
        ToolRun::Exited { success, stdout, stderr } => if success {
            None
        } else {
            Some(GatewayError::ProbeFailed(stderr))
        },
    }
}

/// The metadata of a video file, from a run of the probing tool on it and the
/// file's size. Fails where the tool did not start or reported failure, where
/// its output is no JSON, and where the report fails as `read_report` says.
pub fn extract_video_metadata(run: ToolRun, size: Result<u64, String>) -> (r: Result<
    VideoMetadata,
    GatewayError,
>)
    ensures
        match run {
            ToolRun::NotStarted(e) => r == Err::<VideoMetadata, GatewayError>(
                GatewayError::ProbeNotStarted(e),
            ),
            ToolRun::Exited { success, stdout, stderr } => if !success {
                r == Err::<VideoMetadata, GatewayError>(GatewayError::ProbeFailed(stderr))
            } else {
                match parsed_json(stdout@) {
                    Err(e) => r is Err && r->Err_0 is ParseFailed && r->Err_0->ParseFailed_0@ == e,
                    Ok(report) => is_outcome(r, report_outcome(report, size)),
                }
            },
        },
{
    match run {
        ToolRun::NotStarted(e) => Err(GatewayError::ProbeNotStarted(e)),
        ToolRun::Exited { success, stdout, stderr } => {
            if !success {
                Err(GatewayError::ProbeFailed(stderr))
            } else {
                match parse_json(stdout.as_str()) {
                    Err(e) => Err(GatewayError::ParseFailed(e)),
                    Ok(report) => read_report(&report, size),
                }
            }
        },
    }
}

/// Accepts a file for an operation only where it exists.
pub fn file_check(present: bool) -> (r: Result<(), GatewayError>)
    ensures
        present ==> r == Ok::<(), GatewayError>(()),
        !present ==> r == Err::<(), GatewayError>(GatewayError::FileNotFound),
{
    if present {
        Ok(())
    } else {
        Err(GatewayError::FileNotFound)
    }
}

} // verus!
