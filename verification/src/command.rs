//! Programs to run, and what running one gave.

use vstd::prelude::*;
use vstd::string::*;

verus! {

/// A program and the arguments to start it with.
#[derive(Debug, Clone)]
pub struct Command {
    pub program: String,
    pub arguments: Vec<String>,
}

/// The mathematical value of a `Command`.
pub ghost struct CommandView {
    pub program: Seq<char>,
    pub arguments: Seq<Seq<char>>,
}

impl View for Command {
    type V = CommandView;

    open spec fn view(&self) -> CommandView {
        CommandView {
            program: self.program@,
            arguments: self.arguments@.map_values(|a: String| a@),
        }
    }
}

/// What running a tool to its end gave.
#[derive(Debug, Clone)]
pub enum ToolRun {
    /// The tool could not be started; the text says why.
    NotStarted(String),
    /// The tool ran and ended.
    Exited { success: bool, stdout: String, stderr: String },
}

/// Builds a command from a program's name and its arguments, in order.
pub fn command_of(program: &str, arguments: &Vec<&str>) -> (r: Command)
    ensures
        r@.program == program@,
        r@.arguments == arguments@.map_values(|a: &str| a@),
{
    let mut out: Vec<String> = Vec::new();
    let mut i: usize = 0;
    while i < arguments.len()
        invariant
            i <= arguments@.len(),
            out@.len() == i,
            forall|k: int| 0 <= k < i ==> (#[trigger] out@[k])@ == arguments@[k]@,
        decreases arguments@.len() - i,
    {
        out.push(String::from_str(arguments[i]));
        i = i + 1;
    }
    let r = Command { program: String::from_str(program), arguments: out };
    assert(r@.arguments =~= arguments@.map_values(|a: &str| a@));
    r
}

} // verus!
