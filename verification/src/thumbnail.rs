//! The command of the frame-extraction tool, and what a thumbnail run gives.

use vstd::prelude::*;
use vstd::string::*;
use crate::command::{command_of, Command, CommandView, ToolRun};
use crate::error::GatewayError;

verus! {

/// The seek position used where none is asked for, in seconds.
pub open spec fn default_timestamp() -> Seq<char> {
    "10"@
}

/// The seek position of a thumbnail: the one asked for, else the default.
pub open spec fn timestamp_of(asked: Option<Seq<char>>) -> Seq<char> {
    match asked {
        Some(t) => t,
        None => default_timestamp(),
    }
}

/// The command that extracts one frame of a video at a seek position, scaled to
/// fit 320 by 240 with the aspect ratio kept, padded to exactly that size and
/// centred, overwriting what is at the destination.
pub open spec fn thumbnail_command_of(
    video_path: Seq<char>,
    output_path: Seq<char>,
    timestamp: Seq<char>,
) -> CommandView {
    CommandView {
        program: "ffmpeg"@,
        arguments: seq![
            "-i"@,
            video_path,
            "-ss"@,
            timestamp,
            "-vframes"@,
            "1"@,
            "-y"@,
            "-vf"@,
            "scale=320:240:force_original_aspect_ratio=decrease,pad=320:240:(ow-iw)/2:(oh-ih)/2"@,
            output_path,
        ],
    }
}

/// Builds the frame-extraction command. The seek position is given as text, in
/// seconds; without one the default is taken.
pub fn thumbnail_command(video_path: &str, output_path: &str, timestamp: Option<&str>) -> (r:
    Command)
    ensures
        r@ == thumbnail_command_of(
            video_path@,
            output_path@,
            timestamp_of(
                match timestamp {
                    Some(t) => Some(t@),
                    None => None,
                },
            ),
        ),
{
    let at: &str = match timestamp {
        Some(t) => t,
        None => "10",
    };
    let arguments: Vec<&str> = vec![
        "-i",
        video_path,
        "-ss",
        at,
        "-vframes",
        "1",
        "-y",
        "-vf",
        "scale=320:240:force_original_aspect_ratio=decrease,pad=320:240:(ow-iw)/2:(oh-ih)/2",
        output_path,
    ];
    let r = command_of("ffmpeg", &arguments);
    assert(r@.arguments =~= thumbnail_command_of(video_path@, output_path@, at@).arguments);
    r
}

/// What creating the destination's directories gave, as the operation's own
/// outcome: a failure there ends the operation before the tool is run.
pub fn thumbnail_directory_check(created: Result<(), String>) -> (r: Result<(), GatewayError>)
    ensures
        match created {
            Ok(_) => r == Ok::<(), GatewayError>(()),
            Err(e) => r == Err::<(), GatewayError>(GatewayError::ThumbnailDirectoryFailed(e)),
        },
{
    match created {
        Ok(_) => Ok(()),
        Err(e) => Err(GatewayError::ThumbnailDirectoryFailed(e)),
    }
}

/// The outcome of a thumbnail run: the destination path as it was given where
/// the tool succeeded, else the failure.
pub fn generate_thumbnail(output_path: String, run: ToolRun) -> (r: Result<String, GatewayError>)
    ensures
        match run {
            ToolRun::NotStarted(e) => r == Err::<String, GatewayError>(
                GatewayError::EncodeNotStarted(e),
            ),
            ToolRun::Exited { success, stdout, stderr } => if success {
                r == Ok::<String, GatewayError>(output_path)
            } else {
                r == Err::<String, GatewayError>(GatewayError::EncodeFailed(stderr))
            },
        },
{
    match run {
        ToolRun::NotStarted(e) => Err(GatewayError::EncodeNotStarted(e)),
        ToolRun::Exited { success, stdout, stderr } => {
            if success {
                Ok(output_path)
            } else {
                Err(GatewayError::EncodeFailed(stderr))
            }
        },
    }
}

} // verus!
