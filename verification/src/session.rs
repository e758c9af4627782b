//! The edit session: download, copy, edit, diff, confirm, upload.
//!
//! A session is a state machine. In every state it waits for the outcome of
//! one action, which `pending` names; a driver performs the action and hands
//! the outcome to `step`, which moves the session on. The session itself does
//! nothing to the outside world.

use vstd::prelude::*;
use vstd::string::*;
use crate::location::{parse_s3_url, parse_url, LocationView, ParseError, S3Location};
use crate::process::{
    copy_command, copy_line, diff_command, diff_line, diff_tool, edit_command, edit_line,
    lookup_command, lookup_line, ran_successfully, text_of, working_copy_of, working_copy_path,
    CommandLine, CommandLineView, RunOutcome, RunOutcomeView,
};
use crate::store::StoreError;

verus! {

/// A failure of the host on which the edit runs.
#[derive(Clone, Copy, Debug, PartialEq, Eq, Structural)]
pub enum IoError {
    /// The driver could not create, read or write a local file.
    LocalFile,
    /// The downloaded file could not be copied.
    CopyFailed,
    /// The diff tool could not be started.
    DiffNotRun,
    /// What the diff tool printed is not valid UTF-8.
    DiffNotText,
}

/// Why a session ended without an upload.
#[derive(Clone, Copy, Debug, PartialEq, Eq, Structural)]
pub enum SessionError {
    /// The URL names no object.
    Parse(ParseError),
    /// The editor is no command of the host.
    EditorNotFound,
    /// A local file or process failed.
    Io(IoError),
    /// The store refused or did not answer.
    Store(StoreError),
    /// The user interrupted a prompt.
    Cancelled,
    /// The driver reported an outcome that the session was not waiting for.
    Protocol,
}

/// Where a session stands. Each state but the last two waits for one outcome.
#[derive(Clone, Copy, Debug, PartialEq, Eq, Structural)]
pub enum State {
    /// Nothing is known yet: waits for the lookup of the editor.
    Init,
    /// The editor exists and the URL names an object: waits for the download.
    Fetching,
    /// The object is in a local file: waits for the copy.
    Downloaded,
    /// The working copy exists: waits for the lookup of the diff tool.
    CopyMade,
    /// The editor runs on the working copy: waits for it to exit.
    Editing,
    /// Asked "Do you finish editing?": waits for the answer.
    AwaitingEditConfirm,
    /// The diff tool runs: waits for its output.
    Diffing,
    /// The diff is on its way to the terminal: waits until it is printed.
    DiffShown,
    /// Asked "Confirm your edits and commit?": waits for the answer.
    AwaitingCommitConfirm,
    /// The working copy is on its way to the store: waits for the upload.
    Uploading,
    /// The working copy has replaced the object.
    Done,
    /// The session has failed.
    Error(SessionError),
}

/// The outcome of an action, as the driver reports it.
#[derive(Debug)]
pub enum Event {
    /// A command was run, or could not be.
    Ran(RunOutcome),
    /// The object was written to a fresh local file at `path`.
    Fetched { path: String },
    /// The text was printed.
    Printed,
    /// The user answered a prompt.
    Answered { yes: bool },
    /// The user interrupted a prompt.
    Cancelled,
    /// The store has taken the upload.
    Uploaded,
    /// A request to the store failed.
    StoreFailed(StoreError),
    /// A local file could not be created, read or written.
    IoFailed,
}

/// An event as contracts speak of it.
pub enum EventView {
    Ran(RunOutcomeView),
    Fetched { path: Seq<char> },
    Printed,
    Answered { yes: bool },
    Cancelled,
    Uploaded,
    StoreFailed(StoreError),
    IoFailed,
}

impl View for Event {
    type V = EventView;

    open spec fn view(&self) -> EventView {
        match self {
            Event::Ran(outcome) => EventView::Ran(outcome@),
            Event::Fetched { path } => EventView::Fetched { path: path@ },
            Event::Printed => EventView::Printed,
            Event::Answered { yes } => EventView::Answered { yes: *yes },
            Event::Cancelled => EventView::Cancelled,
            Event::Uploaded => EventView::Uploaded,
            Event::StoreFailed(error) => EventView::StoreFailed(*error),
            Event::IoFailed => EventView::IoFailed,
        }
    }
}

/// What the driver is to do next.
#[derive(Debug)]
pub enum Action {
    /// Run a command: attached to the terminal where `interactive`, else
    /// with its output captured. Answer with `Event::Ran`.
    Run { line: CommandLine, interactive: bool },
    /// Download the object to a fresh temporary file, chunk by chunk.
    /// Answer with `Event::Fetched`, `Event::StoreFailed` or `Event::IoFailed`.
    Fetch { location: S3Location },
    /// Ask a yes/no question whose default is "no". Where `exit_on_cancel`,
    /// an interrupt ends the whole program with a non-zero status. Answer
    /// with `Event::Answered` or `Event::Cancelled`.
    Confirm { prompt: String, exit_on_cancel: bool },
    /// Print a line of text. Answer with `Event::Printed`.
    Print { text: String },
    /// Put the whole content of the file `source` at `location`, whatever is
    /// there. Answer with `Event::Uploaded`, `Event::StoreFailed` or
    /// `Event::IoFailed`.
    Upload { location: S3Location, source: String },
    /// End the program with status 0.
    Finish,
    /// Print `message` and end the program with a non-zero status.
    Abort { error: SessionError, message: String },
}

/// An action as contracts speak of it.
pub enum ActionView {
    Run { line: CommandLineView, interactive: bool },
    Fetch { location: LocationView },
    Confirm { prompt: Seq<char>, exit_on_cancel: bool },
    Print { text: Seq<char> },
    Upload { location: LocationView, source: Seq<char> },
    Finish,
    Abort { error: SessionError, message: Seq<char> },
}

impl View for Action {
    type V = ActionView;

    open spec fn view(&self) -> ActionView {
        match self {
            Action::Run { line, interactive } => ActionView::Run {
                line: line@,
                interactive: *interactive,
            },
            Action::Fetch { location } => ActionView::Fetch { location: location@ },
            Action::Confirm { prompt, exit_on_cancel } => ActionView::Confirm {
                prompt: prompt@,
                exit_on_cancel: *exit_on_cancel,
            },
            Action::Print { text } => ActionView::Print { text: text@ },
            Action::Upload { location, source } => ActionView::Upload {
                location: location@,
                source: source@,
            },
            Action::Finish => ActionView::Finish,
            Action::Abort { error, message } => ActionView::Abort {
                error: *error,
                message: message@,
            },
        }
    }
}

/// A session as contracts speak of it.
pub struct SessionView {
    /// The URL of the object, as the user gave it.
    pub url: Seq<char>,
    /// The editor command.
    pub editor: Seq<char>,
    pub state: State,
    /// The path of the downloaded original; empty until the download is done.
    pub original: Seq<char>,
    /// Whether the host has the diff tool; `false` until it was looked up.
    pub diff_tool: bool,
    /// The last diff; empty until one was computed.
    pub diff: Seq<char>,
}

/// The state of one run of the tool.
#[derive(Debug)]
pub struct EditSession {
    url: String,
    editor: String,
    state: State,
    original: String,
    diff_tool: bool,
    diff: String,
}

impl View for EditSession {
    type V = SessionView;

    closed spec fn view(&self) -> SessionView {
        SessionView {
            url: self.url@,
            editor: self.editor@,
            state: self.state,
            original: self.original@,
            diff_tool: self.diff_tool,
            diff: self.diff@,
        }
    }
}

/// The session for `url` and `editor` before anything has happened.
pub open spec fn initial(url: Seq<char>, editor: Seq<char>) -> SessionView {
    SessionView {
        url,
        editor,
        state: State::Init,
        original: Seq::empty(),
        diff_tool: false,
        diff: Seq::empty(),
    }
}

/// A session in `Done` or `Error` is over.
pub open spec fn is_over(state: State) -> bool {
    state is Done || state is Error
}

/// The states that are entered only with a URL that names an object.
pub open spec fn past_init(state: State) -> bool {
    !(state is Init) && !(state is Error)
}

/// A session past `Init` has a URL that names an object.
pub open spec fn well_formed(s: SessionView) -> bool {
    past_init(s.state) ==> parse_url(s.url) is Ok
}

/// The object that the session edits.
pub open spec fn target(s: SessionView) -> LocationView {
    parse_url(s.url)->Ok_0
}

/// The path of the session's working copy.
pub open spec fn working_copy(s: SessionView) -> Seq<char> {
    working_copy_of(s.original)
}

/// `s` in another state.
pub open spec fn moved(s: SessionView, state: State) -> SessionView {
    SessionView { state, ..s }
}

/// `s` after it has failed with `error`.
pub open spec fn failed(s: SessionView, error: SessionError) -> SessionView {
    moved(s, State::Error(error))
}

/// The question after the editor has exited.
pub open spec fn edit_prompt() -> Seq<char> {
    "Do you finish editing?"@
}

/// The question after the diff was shown.
pub open spec fn commit_prompt() -> Seq<char> {
    "Confirm your edits and commit?"@
}

/// The line that shows a diff.
pub open spec fn diff_report(diff: Seq<char>) -> Seq<char> {
    "git diff:"@ + diff
}

/// What is printed when a session fails with `error`.
pub open spec fn message_text(error: SessionError, editor: Seq<char>) -> Seq<char> {
    match error {
        SessionError::Parse(ParseError::InvalidScheme) => "Invalid s3 url, must start with s3://"@,
        SessionError::Parse(ParseError::InvalidPath) =>
            "Invalid s3 url, must have exactly full path example s3://bucket/key"@,
        SessionError::EditorNotFound => "editor "@ + editor + " not found"@,
        SessionError::Io(IoError::LocalFile) => "failed to read or write a local file"@,
        SessionError::Io(IoError::CopyFailed) => "copy failed"@,
        SessionError::Io(IoError::DiffNotRun) => "failed to run git diff"@,
        SessionError::Io(IoError::DiffNotText) => "git diff printed invalid UTF-8"@,
        SessionError::Store(StoreError::NotFound) => "object not found"@,
        SessionError::Store(StoreError::AccessDenied) => "access denied"@,
        SessionError::Store(StoreError::Transport) => "transport error"@,
        SessionError::Cancelled => "ctrl-c exit"@,
        SessionError::Protocol => "unexpected event"@,
    }
}

/// The action whose outcome a session in state `s.state` waits for.
pub open spec fn pending_action(s: SessionView) -> ActionView {
    match s.state {
        State::Init => ActionView::Run { line: lookup_line(s.editor), interactive: false },
        State::Fetching => ActionView::Fetch { location: target(s) },
        State::Downloaded => ActionView::Run {
            line: copy_line(s.original, working_copy(s)),
            interactive: false,
        },
        State::CopyMade => ActionView::Run { line: lookup_line(diff_tool()), interactive: false },
        State::Editing => ActionView::Run {
            line: edit_line(s.editor, working_copy(s)),
            interactive: true,
        },
        State::AwaitingEditConfirm => ActionView::Confirm {
            prompt: edit_prompt(),
            exit_on_cancel: true,
        },
        State::Diffing => ActionView::Run {
            line: diff_line(s.original, working_copy(s)),
            interactive: false,
        },
        State::DiffShown => ActionView::Print { text: diff_report(s.diff) },
        State::AwaitingCommitConfirm => ActionView::Confirm {
            prompt: commit_prompt(),
            exit_on_cancel: true,
        },
        State::Uploading => ActionView::Upload { location: target(s), source: working_copy(s) },
        State::Done => ActionView::Finish,
        State::Error(error) => ActionView::Abort {
            error,
            message: message_text(error, s.editor),
        },
    }
}

/// The session after the outcome `e` of its pending action.
///
/// A session that is over stays as it is. In any other state a cancellation,
/// a failure of the store or of a local file ends the session; so does an
/// outcome that the state does not wait for.
pub open spec fn next_state(s: SessionView, e: EventView) -> SessionView {
    if is_over(s.state) {
        s
    } else {
        match e {
            EventView::Cancelled => failed(s, SessionError::Cancelled),
            EventView::StoreFailed(error) => failed(s, SessionError::Store(error)),
            EventView::IoFailed => failed(s, SessionError::Io(IoError::LocalFile)),
            EventView::Ran(outcome) => after_run(s, outcome),
            EventView::Fetched { path } => if s.state is Fetching {
                SessionView { state: State::Downloaded, original: path, ..s }
            } else {
                failed(s, SessionError::Protocol)
            },
            EventView::Printed => if s.state is DiffShown {
                moved(s, State::AwaitingCommitConfirm)
            } else {
                failed(s, SessionError::Protocol)
            },
            EventView::Answered { yes } => after_answer(s, yes),
            EventView::Uploaded => if s.state is Uploading {
                moved(s, State::Done)
            } else {
                failed(s, SessionError::Protocol)
            },
        }
    }
}

/// The session after a command has run.
pub open spec fn after_run(s: SessionView, outcome: RunOutcomeView) -> SessionView {
    match s.state {
        // The editor has to exist before anything is downloaded, and the URL
        // has to name an object.
        State::Init => if !ran_successfully(outcome) {
            failed(s, SessionError::EditorNotFound)
        } else {
            match parse_url(s.url) {
                Ok(_) => moved(s, State::Fetching),
                Err(error) => failed(s, SessionError::Parse(error)),
            }
        },
        State::Downloaded => if ran_successfully(outcome) {
            moved(s, State::CopyMade)
        } else {
            failed(s, SessionError::Io(IoError::CopyFailed))
        },
        State::CopyMade => SessionView {
            state: State::Editing,
            diff_tool: ran_successfully(outcome),
            ..s
        },
        // However the editor ended, the user is asked.
        State::Editing => moved(s, State::AwaitingEditConfirm),
        // The diff tool's exit code says whether the files differ: only its
        // output counts.
        State::Diffing => match outcome {
            RunOutcomeView::NotStarted => failed(s, SessionError::Io(IoError::DiffNotRun)),
            RunOutcomeView::Exited(output) => match text_of(output.stdout) {
                Some(diff) => SessionView { state: State::DiffShown, diff, ..s },
                None => failed(s, SessionError::Io(IoError::DiffNotText)),
            },
        },
        _ => failed(s, SessionError::Protocol),
    }
}

/// The session after the user has answered a prompt. "No" leads back into
/// the editor from either prompt. "Yes" to the first leads to the diff, or
/// straight to the upload where the host has no diff tool; "yes" to the
/// second leads to the upload.
pub open spec fn after_answer(s: SessionView, yes: bool) -> SessionView {
    match s.state {
        State::AwaitingEditConfirm => if !yes {
            moved(s, State::Editing)
        } else if s.diff_tool {
            moved(s, State::Diffing)
        } else {
            moved(s, State::Uploading)
        },
        State::AwaitingCommitConfirm => if yes {
            moved(s, State::Uploading)
        } else {
            moved(s, State::Editing)
        },
        _ => failed(s, SessionError::Protocol),
    }
}

/// The status with which the program ends once the session is over: 0 after
/// an upload, 1 after a failure.
pub open spec fn exit_status_of(state: State) -> Option<i32> {
    match state {
        State::Done => Some(0i32),
        State::Error(_) => Some(1i32),
        _ => None,
    }
}

impl SessionError {
    /// What is printed when a session with the editor `editor` fails with
    /// this error.
    pub fn message(&self, editor: &str) -> (text: String)
        ensures
            text@ == message_text(*self, editor@),
    {
        match self {
            SessionError::Parse(ParseError::InvalidScheme) => String::from_str(
                "Invalid s3 url, must start with s3://",
            ),
            SessionError::Parse(ParseError::InvalidPath) => String::from_str(
                "Invalid s3 url, must have exactly full path example s3://bucket/key",
            ),
            SessionError::EditorNotFound => {
                let mut text = String::from_str("editor ");
                text.append(editor);
                text.append(" not found");
                text
            },
            SessionError::Io(IoError::LocalFile) => String::from_str(
                "failed to read or write a local file",
            ),
            SessionError::Io(IoError::CopyFailed) => String::from_str("copy failed"),
            SessionError::Io(IoError::DiffNotRun) => String::from_str("failed to run git diff"),
            SessionError::Io(IoError::DiffNotText) => String::from_str(
                "git diff printed invalid UTF-8",
            ),
            SessionError::Store(StoreError::NotFound) => String::from_str("object not found"),
            SessionError::Store(StoreError::AccessDenied) => String::from_str("access denied"),
            SessionError::Store(StoreError::Transport) => String::from_str("transport error"),
            SessionError::Cancelled => String::from_str("ctrl-c exit"),
            SessionError::Protocol => String::from_str("unexpected event"),
        }
    }
}

impl EditSession {
    #[verifier::type_invariant]
    spec fn target_is_known(self) -> bool {
        past_init(self.state) ==> parse_url(self.url@) is Ok
    }

    /// A session for the object at `url`, to be edited with `editor`.
    pub fn new(url: String, editor: String) -> (session: EditSession)
        ensures
            session@ == initial(url@, editor@),
    {
        EditSession {
            url,
            editor,
            state: State::Init,
            original: String::new(),
            diff_tool: false,
            diff: String::new(),
        }
    }

    /// Where the session stands.
    pub fn state(&self) -> (state: State)
        ensures
            state == self@.state,
            well_formed(self@),
    {
        proof {
            use_type_invariant(self);
        }
        self.state
    }

    /// The status with which the program ends, once the session is over.
    pub fn exit_status(&self) -> (status: Option<i32>)
        ensures
            status == exit_status_of(self@.state),
    {
        match self.state {
            State::Done => Some(0),
            State::Error(_) => Some(1),
            _ => None,
        }
    }

    /// The action whose outcome the session waits for.
    pub fn pending(&self) -> (action: Action)
        ensures
            action@ == pending_action(self@),
            well_formed(self@),
    {
        proof {
            use_type_invariant(self);
        }
        match self.state {
            State::Init => Action::Run {
                line: lookup_command(self.editor.as_str()),
                interactive: false,
            },
            State::Fetching => Action::Fetch { location: self.location() },
            State::Downloaded => {
                let working = working_copy_path(self.original.as_str());
                Action::Run {
                    line: copy_command(self.original.as_str(), working.as_str()),
                    interactive: false,
                }
            },
            State::CopyMade => Action::Run { line: lookup_command("git"), interactive: false },
            State::Editing => {
                let working = working_copy_path(self.original.as_str());
                Action::Run {
                    line: edit_command(self.editor.as_str(), working.as_str()),
                    interactive: true,
                }
            },
            State::AwaitingEditConfirm => Action::Confirm {
                prompt: String::from_str("Do you finish editing?"),
                exit_on_cancel: true,
            },
            State::Diffing => {
                let working = working_copy_path(self.original.as_str());
                Action::Run {
                    line: diff_command(self.original.as_str(), working.as_str()),
                    interactive: false,
                }
            },
            State::DiffShown => {
                let mut text = String::from_str("git diff:");
                text.append(self.diff.as_str());
                Action::Print { text }
            },
            State::AwaitingCommitConfirm => Action::Confirm {
                prompt: String::from_str("Confirm your edits and commit?"),
                exit_on_cancel: true,
            },
            State::Uploading => Action::Upload {
                location: self.location(),
                source: working_copy_path(self.original.as_str()),
            },
            State::Done => Action::Finish,
            State::Error(error) => Action::Abort {
                error,
                message: error.message(self.editor.as_str()),
            },
        }
    }

    /// The object that the session edits, once the session is past `Init`.
    fn location(&self) -> (location: S3Location)
        requires
            past_init(self.state),
        ensures
            location@ == target(self@),
    {
        proof {
            use_type_invariant(self);
        }
        match parse_s3_url(self.url.as_str()) {
            Ok(location) => location,
            Err(_) => unreached(),
        }
    }

    /// Takes the outcome of the pending action, moves on, and returns the
    /// action that is pending then.
    pub fn step(&mut self, event: Event) -> (action: Action)
        ensures
            final(self)@ == next_state(old(self)@, event@),
            action@ == pending_action(final(self)@),
            well_formed(final(self)@),
    {
        proof {
            use_type_invariant(&*self);
        }
        match self.state {
            State::Done | State::Error(_) => {},
            _ => {
                match event {
                    Event::Cancelled => {
                        self.state = State::Error(SessionError::Cancelled);
                    },
                    Event::StoreFailed(error) => {
                        self.state = State::Error(SessionError::Store(error));
                    },
                    Event::IoFailed => {
                        self.state = State::Error(SessionError::Io(IoError::LocalFile));
                    },
                    Event::Ran(outcome) => {
                        self.run_ended(outcome);
                    },
                    Event::Fetched { path } => {
                        match self.state {
                            State::Fetching => {
                                self.original = path;
                                self.state = State::Downloaded;
                            },
                            _ => {
                                self.state = State::Error(SessionError::Protocol);
                            },
                        }
                    },
                    Event::Printed => {
                        match self.state {
                            State::DiffShown => {
                                self.state = State::AwaitingCommitConfirm;
                            },
                            _ => {
                                self.state = State::Error(SessionError::Protocol);
                            },
                        }
                    },
                    Event::Answered { yes } => {
                        self.answered(yes);
                    },
                    Event::Uploaded => {
                        match self.state {
                            State::Uploading => {
                                self.state = State::Done;
                            },
                            _ => {
                                self.state = State::Error(SessionError::Protocol);
                            },
                        }
                    },
                }
            },
        }
        self.pending()
    }

    /// `step` for a command that has run.
    fn run_ended(&mut self, outcome: RunOutcome)
        requires
            !is_over(old(self).state),
        ensures
            final(self)@ == after_run(old(self)@, outcome@),
    {
        proof {
            use_type_invariant(&*self);
        }
        match self.state {
            State::Init => {
                if !outcome.succeeded() {
                    self.state = State::Error(SessionError::EditorNotFound);
                } else {
                    match parse_s3_url(self.url.as_str()) {
                        Ok(_) => {
                            self.state = State::Fetching;
                        },
                        Err(error) => {
                            self.state = State::Error(SessionError::Parse(error));
                        },
                    }
                }
            },
            State::Downloaded => {
                if outcome.succeeded() {
                    self.state = State::CopyMade;
                } else {
                    self.state = State::Error(SessionError::Io(IoError::CopyFailed));
                }
            },
            State::CopyMade => {
                self.diff_tool = outcome.succeeded();
                self.state = State::Editing;
            },
            State::Editing => {
                self.state = State::AwaitingEditConfirm;
            },
            State::Diffing => {
                match outcome {
                    RunOutcome::NotStarted => {
                        self.state = State::Error(SessionError::Io(IoError::DiffNotRun));
                    },
                    RunOutcome::Exited(output) => {
                        match output.stdout_text() {
                            Some(text) => {
                                self.diff = text;
                                self.state = State::DiffShown;
                            },
                            None => {
                                self.state = State::Error(SessionError::Io(IoError::DiffNotText));
                            },
                        }
                    },
                }
            },
            _ => {
                self.state = State::Error(SessionError::Protocol);
            },
        }
    }

    /// `step` for an answer to a prompt.
    fn answered(&mut self, yes: bool)
        requires
            !is_over(old(self).state),
        ensures
            final(self)@ == after_answer(old(self)@, yes),
    {
        proof {
            use_type_invariant(&*self);
        }
        match self.state {
            State::AwaitingEditConfirm => {
                if !yes {
                    self.state = State::Editing;
                } else if self.diff_tool {
                    self.state = State::Diffing;
                } else {
                    self.state = State::Uploading;
                }
            },
            State::AwaitingCommitConfirm => {
                if yes {
                    self.state = State::Uploading;
                } else {
                    self.state = State::Editing;
                }
            },
            _ => {
                self.state = State::Error(SessionError::Protocol);
            },
        }
    }
}

} // verus!
