use media_gateway::command::{command_of, Command, ToolRun};
use media_gateway::error::GatewayError;
use media_gateway::greeting::{greet, read_subtitle_file};
use media_gateway::launcher::{
    launch_outcome, open_command, reveal_commands, LaunchAction, Platform,
};
use media_gateway::probe::probe_command;
use media_gateway::thumbnail::{generate_thumbnail, thumbnail_command, thumbnail_directory_check};

fn shown(c: &Command) -> (String, Vec<String>) {
    (c.program.clone(), c.arguments.clone())
}

fn expect(program: &str, arguments: &[&str]) -> (String, Vec<String>) {
    (program.to_string(), arguments.iter().map(|a| a.to_string()).collect())
}

#[test]
fn command_of_keeps_program_and_arguments() {
    let c = command_of("tool", &vec!["-a", "b c"]);
    assert_eq!(shown(&c), expect("tool", &["-a", "b c"]));
    assert_eq!(shown(&command_of("tool", &vec![])), expect("tool", &[]));
}

#[test]
fn probe_command_asks_for_a_quiet_json_report() {
    let c = probe_command("/v/a b.mp4");
    assert_eq!(
        shown(&c),
        expect(
            "ffprobe",
            &["-v", "quiet", "-print_format", "json", "-show_format", "-show_streams", "/v/a b.mp4"]
        )
    );
}

#[test]
fn thumbnail_command_seeks_scales_pads_and_overwrites() {
    let c = thumbnail_command("/v/a.mp4", "/t/a.jpg", Some("2.5"));
    assert_eq!(
        shown(&c),
        expect(
            "ffmpeg",
            &[
                "-i",
                "/v/a.mp4",
                "-ss",
                "2.5",
                "-vframes",
                "1",
                "-y",
                "-vf",
                "scale=320:240:force_original_aspect_ratio=decrease,pad=320:240:(ow-iw)/2:(oh-ih)/2",
                "/t/a.jpg"
            ]
        )
    );
}

#[test]
fn thumbnail_command_seeks_to_ten_seconds_by_default() {
    let c = thumbnail_command("/v/a.mp4", "/t/a.jpg", None);
    assert_eq!(c.arguments[3], "10");
    assert_eq!(c.arguments[3], 10.0f64.to_string());
    assert_eq!(c.arguments.len(), 10);
}

#[test]
fn thumbnail_gives_back_the_destination_as_given() {
    let run = ToolRun::Exited { success: true, stdout: String::new(), stderr: "noise".to_string() };
    assert_eq!(generate_thumbnail("./t/../t/a.jpg".to_string(), run).unwrap(), "./t/../t/a.jpg");
}

#[test]
fn thumbnail_succeeds_twice_for_one_destination() {
    for _ in 0..2 {
        let c = thumbnail_command("/v/a.mp4", "/t/a.jpg", None);
        assert!(c.arguments.contains(&"-y".to_string()));
        let run = ToolRun::Exited { success: true, stdout: String::new(), stderr: String::new() };
        assert_eq!(generate_thumbnail("/t/a.jpg".to_string(), run).unwrap(), "/t/a.jpg");
    }
}

#[test]
fn thumbnail_fails_where_the_tool_fails() {
    let run = ToolRun::Exited { success: false, stdout: String::new(), stderr: "eof".to_string() };
    let e = generate_thumbnail("/t/a.jpg".to_string(), run).unwrap_err();
    assert!(matches!(e, GatewayError::EncodeFailed(_)));
    assert_eq!(e.message(), "FFmpeg failed: eof");
    let e = generate_thumbnail("/t/a.jpg".to_string(), ToolRun::NotStarted("absent".to_string()))
        .unwrap_err();
    assert!(matches!(e, GatewayError::EncodeNotStarted(_)));
    assert_eq!(e.message(), "Failed to execute ffmpeg: absent");
}

#[test]
fn thumbnail_directory_failure_is_reported() {
    assert!(thumbnail_directory_check(Ok(())).is_ok());
    let e = thumbnail_directory_check(Err("read-only".to_string())).unwrap_err();
    assert!(matches!(e, GatewayError::ThumbnailDirectoryFailed(_)));
    assert_eq!(e.message(), "Failed to create thumbnail directory: read-only");
}

#[test]
fn open_command_of_each_platform() {
    assert_eq!(
        shown(&open_command(Platform::Windows, "C:\\v\\a.mp4")),
        expect("cmd", &["/C", "start", "", "C:\\v\\a.mp4"])
    );
    assert_eq!(shown(&open_command(Platform::MacOs, "/v/a.mp4")), expect("open", &["/v/a.mp4"]));
    assert_eq!(
        shown(&open_command(Platform::Linux, "/v/a.mp4")),
        expect("xdg-open", &["/v/a.mp4"])
    );
}

#[test]
fn reveal_commands_of_each_platform() {
    let w = reveal_commands(Platform::Windows, "C:\\v\\a.mp4", Some("C:\\v"));
    assert_eq!(w.len(), 1);
    assert_eq!(shown(&w[0]), expect("explorer", &["/select,", "C:\\v\\a.mp4"]));
    let m = reveal_commands(Platform::MacOs, "/v/a.mp4", Some("/v"));
    assert_eq!(m.len(), 1);
    assert_eq!(shown(&m[0]), expect("open", &["-R", "/v/a.mp4"]));
    let l = reveal_commands(Platform::Linux, "/v/a.mp4", Some("/v"));
    assert_eq!(l.len(), 3);
    assert_eq!(shown(&l[0]), expect("nautilus", &["-s", "/v/a.mp4"]));
    assert_eq!(shown(&l[1]), expect("dolphin", &["--select", "/v/a.mp4"]));
    assert_eq!(shown(&l[2]), expect("xdg-open", &["/v"]));
}

#[test]
fn reveal_falls_back_to_the_path_itself_without_a_parent() {
    let l = reveal_commands(Platform::Linux, "/", None);
    assert_eq!(shown(&l[2]), expect("xdg-open", &["/"]));
}

#[test]
fn launch_succeeds_where_an_attempt_started() {
    assert!(launch_outcome(LaunchAction::Open, Platform::Linux, vec![Ok(())]).is_ok());
    let r = launch_outcome(
        LaunchAction::Reveal,
        Platform::Linux,
        vec![Err("no nautilus".to_string()), Ok(())],
    );
    assert!(r.is_ok());
}

#[test]
fn launch_fails_with_the_reason_of_the_last_attempt() {
    let e = launch_outcome(
        LaunchAction::Reveal,
        Platform::Linux,
        vec![Err("one".to_string()), Err("two".to_string()), Err("three".to_string())],
    )
    .unwrap_err();
    assert!(matches!(e, GatewayError::LaunchFailed(_, _)));
    assert_eq!(e.message(), "Failed to open file manager: three");
}

#[test]
fn launch_failure_is_named_for_action_and_platform() {
    let fail = |a, p| launch_outcome(a, p, vec![Err("x".to_string())]).unwrap_err().message();
    assert_eq!(fail(LaunchAction::Open, Platform::Windows), "Failed to open file: x");
    assert_eq!(fail(LaunchAction::Open, Platform::MacOs), "Failed to open file: x");
    assert_eq!(fail(LaunchAction::Open, Platform::Linux), "Failed to open file: x");
    assert_eq!(fail(LaunchAction::Reveal, Platform::Windows), "Failed to open file location: x");
    assert_eq!(fail(LaunchAction::Reveal, Platform::MacOs), "Failed to show file in Finder: x");
    assert_eq!(fail(LaunchAction::Reveal, Platform::Linux), "Failed to open file manager: x");
}

#[test]
fn launch_without_attempts_fails_without_a_reason() {
    let e = launch_outcome(LaunchAction::Open, Platform::Linux, vec![]).unwrap_err();
    assert_eq!(e.message(), "Failed to open file: ");
}

#[test]
fn greet_by_name() {
    assert_eq!(greet("Ada"), "Hello, Ada! You've been greeted from Rust!");
    assert_eq!(greet(""), "Hello, ! You've been greeted from Rust!");
}

#[test]
fn subtitle_text_is_handed_on_unchanged() {
    assert_eq!(read_subtitle_file(Ok("1\n00:00 --> 00:01\nHi\n".to_string())).unwrap(), "1\n00:00 --> 00:01\nHi\n");
    let e = read_subtitle_file(Err("stream did not contain valid UTF-8".to_string())).unwrap_err();
    assert!(matches!(e, GatewayError::ReadFailed(_)));
    assert_eq!(e.message(), "Failed to read subtitle file: stream did not contain valid UTF-8");
}

#[test]
fn messages_of_the_remaining_errors() {
    assert_eq!(GatewayError::NoStreams.message(), "No streams found");
    assert_eq!(GatewayError::NoVideoStream.message(), "No video stream found");
    assert_eq!(GatewayError::DirectoryNotFound.message(), "Directory does not exist");
    assert_eq!(GatewayError::FileNotFound.message(), "File does not exist");
    assert_eq!(
        GatewayError::ParseFailed("eof".to_string()).message(),
        "Failed to parse FFprobe output: eof"
    );
}
