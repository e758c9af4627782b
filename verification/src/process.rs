//! The commands an edit runs on the host, as plain values, and what the way
//! a command ended says.

use vstd::prelude::*;
use vstd::string::*;
use vstd::utf8::*;

verus! {

/// A program and its arguments.
#[derive(Debug)]
pub struct CommandLine {
    pub program: String,
    pub args: Vec<String>,
}

/// A command line as contracts speak of it.
pub struct CommandLineView {
    pub program: Seq<char>,
    pub args: Seq<Seq<char>>,
}

impl View for CommandLine {
    type V = CommandLineView;

    open spec fn view(&self) -> CommandLineView {
        CommandLineView {
            program: self.program@,
            args: Seq::new(self.args@.len(), |i: int| self.args@[i]@),
        }
    }
}

/// What a command that ran to its end left behind.
#[derive(Debug)]
pub struct CommandOutput {
    /// The exit code, or `None` where the process was ended by a signal.
    pub exit_code: Option<i32>,
    pub stdout: Vec<u8>,
    pub stderr: Vec<u8>,
}

/// A command's output as contracts speak of it.
pub struct CommandOutputView {
    pub exit_code: Option<i32>,
    pub stdout: Seq<u8>,
    pub stderr: Seq<u8>,
}

impl View for CommandOutput {
    type V = CommandOutputView;

    open spec fn view(&self) -> CommandOutputView {
        CommandOutputView { exit_code: self.exit_code, stdout: self.stdout@, stderr: self.stderr@ }
    }
}

/// How the attempt to run a command ended.
#[derive(Debug)]
pub enum RunOutcome {
    /// The process could not be started.
    NotStarted,
    /// The process ran and ended.
    Exited(CommandOutput),
}

/// The end of a run as contracts speak of it.
pub enum RunOutcomeView {
    NotStarted,
    Exited(CommandOutputView),
}

impl View for RunOutcome {
    type V = RunOutcomeView;

    open spec fn view(&self) -> RunOutcomeView {
        match self {
            RunOutcome::NotStarted => RunOutcomeView::NotStarted,
            RunOutcome::Exited(output) => RunOutcomeView::Exited(output@),
        }
    }
}

/// The command that looks `name` up on the search path: `which name`.
pub open spec fn lookup_line(name: Seq<char>) -> CommandLineView {
    CommandLineView { program: "which"@, args: seq![name] }
}

/// The command that copies a file: `cp from to`.
pub open spec fn copy_line(from: Seq<char>, to: Seq<char>) -> CommandLineView {
    CommandLineView { program: "cp"@, args: seq![from, to] }
}

/// The command that compares the original with the edited file, blind to
/// changes in the amount of white space, and in colour:
/// `git diff --ignore-space-change --color original edited`.
pub open spec fn diff_line(original: Seq<char>, edited: Seq<char>) -> CommandLineView {
    CommandLineView {
        program: diff_tool(),
        args: seq!["diff"@, "--ignore-space-change"@, "--color"@, original, edited],
    }
}

/// The program that computes diffs.
pub open spec fn diff_tool() -> Seq<char> {
    "git"@
}

/// The command that opens `file` in `editor`.
pub open spec fn edit_line(editor: Seq<char>, file: Seq<char>) -> CommandLineView {
    CommandLineView { program: editor, args: seq![file] }
}

/// The path of the working copy that belongs to the downloaded `original`.
pub open spec fn working_copy_of(original: Seq<char>) -> Seq<char> {
    original + ".edited"@
}

/// A run was a success when the process ended with exit code 0.
pub open spec fn ran_successfully(outcome: RunOutcomeView) -> bool {
    outcome matches RunOutcomeView::Exited(output) && output.exit_code == Some(0i32)
}

/// What `stdout` holds as text: its decoding, where it is valid UTF-8.
pub open spec fn text_of(stdout: Seq<u8>) -> Option<Seq<char>> {
    if valid_utf8(stdout) {
        Some(decode_utf8(stdout))
    } else {
        None
    }
}

/// A text as contracts speak of it.
pub open spec fn text_view(text: Option<String>) -> Option<Seq<char>> {
    match text {
        Some(t) => Some(t@),
        None => None,
    }
}

impl CommandOutput {
    /// Whether the process ended with exit code 0. The end by a signal is no success.
    pub fn success(&self) -> (b: bool)
        ensures
            b == (self.exit_code == Some(0i32)),
    {
        match self.exit_code {
            Some(code) => code == 0,
            None => false,
        }
    }

    /// What the command printed, as text; `None` where it is not valid UTF-8.
    pub fn stdout_text(self) -> (text: Option<String>)
        ensures
            text_view(text) == text_of(self@.stdout),
    {
        let text = from_utf8(self.stdout);
        proof {
            if text is Some {
                encode_utf8_decode_utf8(text->Some_0@);
            }
        }
        text
    }
}

impl RunOutcome {
    /// Whether the command ran and succeeded. A process that could not be
    /// started counts as a failure, not as an error.
    pub fn succeeded(&self) -> (b: bool)
        ensures
            b == ran_successfully(self@),
    {
        match self {
            RunOutcome::NotStarted => false,
            RunOutcome::Exited(output) => output.success(),
        }
    }
}

/// `which name`: succeeds exactly when `name` is a command of the host.
pub fn lookup_command(name: &str) -> (line: CommandLine)
    ensures
        line@ == lookup_line(name@),
{
    let mut args: Vec<String> = Vec::new();
    args.push(String::from_str(name));
    let line = CommandLine { program: String::from_str("which"), args };
    assert(line@.args =~= seq![name@]);
    line
}

/// `cp from to`.
pub fn copy_command(from: &str, to: &str) -> (line: CommandLine)
    ensures
        line@ == copy_line(from@, to@),
{
    let mut args: Vec<String> = Vec::new();
    args.push(String::from_str(from));
    args.push(String::from_str(to));
    let line = CommandLine { program: String::from_str("cp"), args };
    assert(line@.args =~= seq![from@, to@]);
    line
}

/// `git diff --ignore-space-change --color original edited`.
pub fn diff_command(original: &str, edited: &str) -> (line: CommandLine)
    ensures
        line@ == diff_line(original@, edited@),
{
    let mut args: Vec<String> = Vec::new();
    args.push(String::from_str("diff"));
    args.push(String::from_str("--ignore-space-change"));
    args.push(String::from_str("--color"));
    args.push(String::from_str(original));
    args.push(String::from_str(edited));
    let line = CommandLine { program: String::from_str("git"), args };
    assert(line@.args =~= seq![
        "diff"@,
        "--ignore-space-change"@,
        "--color"@,
        original@,
        edited@,
    ]);
    line
}

/// `editor file`.
pub fn edit_command(editor: &str, file: &str) -> (line: CommandLine)
    ensures
        line@ == edit_line(editor@, file@),
{
    let mut args: Vec<String> = Vec::new();
    args.push(String::from_str(file));
    let line = CommandLine { program: String::from_str(editor), args };
    assert(line@.args =~= seq![file@]);
    line
}

/// The path of the working copy: the original's path with `.edited` behind it.
pub fn working_copy_path(original: &str) -> (path: String)
    ensures
        path@ == working_copy_of(original@),
{
    let mut path = String::from_str(original);
    path.append(".edited");
    path
}

/// `String::from_utf8` of std: the text whose UTF-8 encoding is `bytes`, and
/// `None` exactly where `bytes` are not valid UTF-8.
#[verifier::external_body]
fn from_utf8(bytes: Vec<u8>) -> (text: Option<String>)
    ensures
        text is Some <==> valid_utf8(bytes@),
        text matches Some(t) ==> encode_utf8(t@) == bytes@,
{
    match String::from_utf8(bytes) {
        Ok(text) => Some(text),
        Err(_) => None,
    }
}

} // verus!
