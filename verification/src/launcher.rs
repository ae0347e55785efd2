//! Opening a file with its default program, and revealing it in the file
//! manager: which helper programs to start on which platform.

use vstd::prelude::*;
use vstd::string::*;
use crate::command::{command_of, Command, CommandView};
use crate::error::GatewayError;

verus! {

/// The families of operating systems that the gateway knows.
#[derive(Debug, Clone, Copy, PartialEq, Eq, Structural)]
pub enum Platform {
    Windows,
    MacOs,
    Linux,
}

/// What is to be done with a file.
#[derive(Debug, Clone, Copy, PartialEq, Eq, Structural)]
pub enum LaunchAction {
    /// Open it with the program registered for it.
    Open,
    /// Show it selected in the file manager.
    Reveal,
}

/// The command that opens a file with its default program.
pub open spec fn open_command_of(platform: Platform, file_path: Seq<char>) -> CommandView {
    match platform {
        Platform::Windows => CommandView {
            program: "cmd"@,
            arguments: seq!["/C"@, "start"@, ""@, file_path],
        },
        Platform::MacOs => CommandView { program: "open"@, arguments: seq![file_path] },
        Platform::Linux => CommandView { program: "xdg-open"@, arguments: seq![file_path] },
    }
}

/// The commands that reveal a file, in the order in which they are tried: each
/// is tried only where the ones before it could not be started. `parent` is
/// the directory that holds the file, where the path has one.
pub open spec fn reveal_commands_of(
    platform: Platform,
    file_path: Seq<char>,
    parent: Option<Seq<char>>,
) -> Seq<CommandView> {
    match platform {
        Platform::Windows => seq![
            CommandView { program: "explorer"@, arguments: seq!["/select,"@, file_path] },
        ],
        Platform::MacOs => seq![
            CommandView { program: "open"@, arguments: seq!["-R"@, file_path] },
        ],
        Platform::Linux => seq![
            CommandView { program: "nautilus"@, arguments: seq!["-s"@, file_path] },
            CommandView { program: "dolphin"@, arguments: seq!["--select"@, file_path] },
            CommandView {
                program: "xdg-open"@,
                arguments: seq![
                    match parent {
                        Some(p) => p,
                        None => file_path,
                    },
                ],
            },
        ],
    }
}

/// What is said before the reason where a helper program could not be started.
pub open spec fn failure_prefix(action: LaunchAction, platform: Platform) -> Seq<char> {
    match action {
        LaunchAction::Open => "Failed to open file"@,
        LaunchAction::Reveal => match platform {
            Platform::Windows => "Failed to open file location"@,
            Platform::MacOs => "Failed to show file in Finder"@,
            Platform::Linux => "Failed to open file manager"@,
        },
    }
}

/// The values of a sequence of commands.
pub open spec fn command_views(commands: Seq<Command>) -> Seq<CommandView> {
    commands.map_values(|c: Command| c@)
}

/// Builds the command that opens a file with its default program.
pub fn open_command(platform: Platform, file_path: &str) -> (r: Command)
    ensures
        r@ == open_command_of(platform, file_path@),
{
    match platform {
        Platform::Windows => {
            let arguments: Vec<&str> = vec!["/C", "start", "", file_path];
            let r = command_of("cmd", &arguments);
            assert(r@.arguments =~= open_command_of(platform, file_path@).arguments);
            r
        },
        Platform::MacOs => {
            let arguments: Vec<&str> = vec![file_path];
            let r = command_of("open", &arguments);
            assert(r@.arguments =~= open_command_of(platform, file_path@).arguments);
            r
        },
        Platform::Linux => {
            let arguments: Vec<&str> = vec![file_path];
            let r = command_of("xdg-open", &arguments);
            assert(r@.arguments =~= open_command_of(platform, file_path@).arguments);
            r
        },
    }
}

/// Builds a command with two arguments.
fn command_with_two(program: &str, first: &str, second: &str) -> (r: Command)
    ensures
        r@ == (CommandView { program: program@, arguments: seq![first@, second@] }),
{
    let arguments: Vec<&str> = vec![first, second];
    let r = command_of(program, &arguments);
    assert(r@.arguments =~= seq![first@, second@]);
    r
}

/// Builds the commands that reveal a file, in the order in which to try them.
pub fn reveal_commands(platform: Platform, file_path: &str, parent: Option<&str>) -> (r: Vec<
    Command,
>)
    ensures
        command_views(r@) == reveal_commands_of(
            platform,
            file_path@,
            match parent {
                Some(p) => Some(p@),
                None => None,
            },
        ),
{
    let ghost parent_text = match parent {
        Some(p) => Some(p@),
        None => None,
    };
    let mut out: Vec<Command> = Vec::new();
    match platform {
        Platform::Windows => {
            out.push(command_with_two("explorer", "/select,", file_path));
        },
        Platform::MacOs => {
            out.push(command_with_two("open", "-R", file_path));
        },
        Platform::Linux => {
            out.push(command_with_two("nautilus", "-s", file_path));
            out.push(command_with_two("dolphin", "--select", file_path));
            let target: &str = match parent {
                Some(p) => p,
                None => file_path,
            };
            let arguments: Vec<&str> = vec![target];
            let last = command_of("xdg-open", &arguments);
            assert(last@.arguments =~= seq![target@]);
            out.push(last);
        },
    }
    assert(command_views(out@) =~= reveal_commands_of(platform, file_path@, parent_text));
    out
}

/// Whether one of the first `n` attempts started its program.
pub open spec fn any_started(attempts: Seq<Result<(), String>>, n: int) -> bool {
    exists|i: int| 0 <= i < n && (#[trigger] attempts[i]) is Ok
}

/// The outcome of an action from the attempts made for it, in order: success
/// where one of them started its program; else the failure of the last one,
/// named for the action and the platform. Without any attempt the action has
/// failed for no reason.
pub fn launch_outcome(
    action: LaunchAction,
    platform: Platform,
    attempts: Vec<Result<(), String>>,
) -> (r: Result<(), GatewayError>)
    ensures
        any_started(attempts@, attempts@.len() as int) ==> r == Ok::<(), GatewayError>(()),
        !any_started(attempts@, attempts@.len() as int) ==> {
            &&& r is Err
            &&& r->Err_0 is LaunchFailed
            &&& r->Err_0->LaunchFailed_0@ == failure_prefix(action, platform)
            &&& r->Err_0->LaunchFailed_1@ == if attempts@.len() == 0 {
                Seq::<char>::empty()
            } else {
                attempts@.last()->Err_0@
            }
        },
{
    let n: usize = attempts.len();
    let mut i: usize = 0;
    while i < n
        invariant
            i <= n,
            n == attempts@.len(),
            !any_started(attempts@, i as int),
        decreases n - i,
    {
        if attempts[i].is_ok() {
            assert(attempts@[i as int] is Ok);
            return Ok(());
        }
        i = i + 1;
    }
    let reason = if n == 0 {
        proof {
            reveal_strlit("");
            assert(""@ =~= Seq::<char>::empty());
        }
        String::from_str("")
    } else {
        assert(attempts@[n - 1] is Err);
        match &attempts[n - 1] {
            Err(e) => e.clone(),
            Ok(_) => String::from_str(""),
        }
    };
    let prefix = match action {
        LaunchAction::Open => String::from_str("Failed to open file"),
        LaunchAction::Reveal => match platform {
            Platform::Windows => String::from_str("Failed to open file location"),
            Platform::MacOs => String::from_str("Failed to show file in Finder"),
            Platform::Linux => String::from_str("Failed to open file manager"),
        },
    };
    Err(GatewayError::LaunchFailed(prefix, reason))
}

} // verus!
