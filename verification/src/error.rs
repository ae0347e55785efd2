//! The ways an operation of the gateway fails.

use vstd::prelude::*;
use vstd::string::*;

verus! {

/// Why an operation failed. Each kind carries the underlying message where
/// there is one.
#[derive(Debug, Clone)]
pub enum GatewayError {
    /// The directory to list is absent or is no directory.
    DirectoryNotFound,
    /// The file to work on is absent.
    FileNotFound,
    /// The directory exists but could not be enumerated.
    DirectoryReadFailed(String),
    /// The probing tool ran and reported failure.
    ProbeFailed(String),
    /// The probing tool could not be started.
    ProbeNotStarted(String),
    /// The probing tool's report is not valid JSON.
    ParseFailed(String),
    /// The report holds no list of streams.
    NoStreams,
    /// No stream of the report is a video stream.
    NoVideoStream,
    /// The file's size could not be read.
    SizeUnavailable(String),
    /// The destination's directories could not be created.
    ThumbnailDirectoryFailed(String),
    /// The frame-extraction tool ran and reported failure.
    EncodeFailed(String),
    /// The frame-extraction tool could not be started.
    EncodeNotStarted(String),
    /// A helper program could not be started; the first text is what was
    /// attempted.
    LaunchFailed(String, String),
    /// A text file could not be read.
    ReadFailed(String),
}

impl GatewayError {
    /// The message shown to the user, as a sequence of characters.
    pub open spec fn message_text(self) -> Seq<char> {
        match self {
            GatewayError::DirectoryNotFound => "Directory does not exist"@,
            GatewayError::FileNotFound => "File does not exist"@,
            GatewayError::DirectoryReadFailed(e) => "Failed to read directory: "@ + e@,
            GatewayError::ProbeFailed(e) => "FFprobe failed: "@ + e@,
            GatewayError::ProbeNotStarted(e) => "Failed to execute ffprobe: "@ + e@,
            GatewayError::ParseFailed(e) => "Failed to parse FFprobe output: "@ + e@,
            GatewayError::NoStreams => "No streams found"@,
            GatewayError::NoVideoStream => "No video stream found"@,
            GatewayError::SizeUnavailable(e) => "Failed to get file size: "@ + e@,
            GatewayError::ThumbnailDirectoryFailed(e) => "Failed to create thumbnail directory: "@
                + e@,
            GatewayError::EncodeFailed(e) => "FFmpeg failed: "@ + e@,
            GatewayError::EncodeNotStarted(e) => "Failed to execute ffmpeg: "@ + e@,
            GatewayError::LaunchFailed(what, e) => what@ + ": "@ + e@,
            GatewayError::ReadFailed(e) => "Failed to read subtitle file: "@ + e@,
        }
    }

    /// The human-readable message of this error.
    pub fn message(&self) -> (r: String)
        ensures
            r@ == self.message_text(),
    {
        match self {
            GatewayError::DirectoryNotFound => String::from_str("Directory does not exist"),
            GatewayError::FileNotFound => String::from_str("File does not exist"),
            GatewayError::DirectoryReadFailed(e) => String::from_str(
                "Failed to read directory: ",
            ).concat(e.as_str()),
            GatewayError::ProbeFailed(e) => String::from_str("FFprobe failed: ").concat(
                e.as_str(),
            ),
            GatewayError::ProbeNotStarted(e) => String::from_str(
                "Failed to execute ffprobe: ",
            ).concat(e.as_str()),
            GatewayError::ParseFailed(e) => String::from_str(
                "Failed to parse FFprobe output: ",
            ).concat(e.as_str()),
            GatewayError::NoStreams => String::from_str("No streams found"),
            GatewayError::NoVideoStream => String::from_str("No video stream found"),
            GatewayError::SizeUnavailable(e) => String::from_str(
                "Failed to get file size: ",
            ).concat(e.as_str()),
            GatewayError::ThumbnailDirectoryFailed(e) => String::from_str(
                "Failed to create thumbnail directory: ",
            ).concat(e.as_str()),
            GatewayError::EncodeFailed(e) => String::from_str("FFmpeg failed: ").concat(
                e.as_str(),
            ),
            GatewayError::EncodeNotStarted(e) => String::from_str(
                "Failed to execute ffmpeg: ",
            ).concat(e.as_str()),
            GatewayError::LaunchFailed(what, e) => what.clone().concat(": ").concat(e.as_str()),
            GatewayError::ReadFailed(e) => String::from_str(
                "Failed to read subtitle file: ",
            ).concat(e.as_str()),
        }
    }
}

} // verus!
