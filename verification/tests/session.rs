use s3_edit::location::ParseError;
use s3_edit::process::{CommandOutput, RunOutcome};
use s3_edit::session::{Action, EditSession, Event, IoError, SessionError, State};
use s3_edit::store::StoreError;

const URL: &str = "s3://mybucket/notes.txt";
const ORIGINAL: &str = "/tmp/.tmpXyZ";
const WORKING: &str = "/tmp/.tmpXyZ.edited";

fn exited(code: i32, stdout: &[u8]) -> Event {
    Event::Ran(RunOutcome::Exited(CommandOutput {
        exit_code: Some(code),
        stdout: stdout.to_vec(),
        stderr: Vec::new(),
    }))
}

fn success() -> Event {
    exited(0, b"")
}

fn failure() -> Event {
    exited(1, b"")
}

fn yes() -> Event {
    Event::Answered { yes: true }
}

fn no() -> Event {
    Event::Answered { yes: false }
}

fn args(list: &[&str]) -> Vec<String> {
    list.iter().map(|s| s.to_string()).collect()
}

fn is_run(action: &Action, program: &str, arguments: &[&str], attached: bool) -> bool {
    match action {
        Action::Run { line, interactive } => {
            line.program == program && line.args == args(arguments) && *interactive == attached
        }
        _ => false,
    }
}

fn is_confirm(action: &Action, text: &str) -> bool {
    match action {
        Action::Confirm { prompt, exit_on_cancel } => prompt == text && *exit_on_cancel,
        _ => false,
    }
}

fn is_upload(action: &Action) -> bool {
    match action {
        Action::Upload { location, source } => {
            location.bucket() == "mybucket" && location.key() == "notes.txt" && source == WORKING
        }
        _ => false,
    }
}

fn is_abort(action: &Action, expected: SessionError, text: &str) -> bool {
    match action {
        Action::Abort { error, message } => *error == expected && message == text,
        _ => false,
    }
}

/// A session with the editor `vi` that has downloaded, copied and looked the
/// diff tool up, and now runs the editor.
fn editing(diff_tool: bool) -> EditSession {
    let mut session = EditSession::new(URL.to_string(), "vi".to_string());
    session.step(success());
    session.step(Event::Fetched { path: ORIGINAL.to_string() });
    session.step(success());
    session.step(if diff_tool { success() } else { failure() });
    assert_eq!(session.state(), State::Editing);
    session
}

/// Feeds the events and counts the steps that asked for a diff and for an upload.
fn drive(session: &mut EditSession, events: Vec<Event>) -> (usize, usize) {
    let mut diffs = 0;
    let mut uploads = 0;
    for event in events {
        let action = session.step(event);
        if is_run(
            &action,
            "git",
            &["diff", "--ignore-space-change", "--color", ORIGINAL, WORKING],
            false,
        ) {
            diffs += 1;
        }
        if is_upload(&action) {
            uploads += 1;
        }
    }
    (diffs, uploads)
}

#[test]
fn new_session_looks_the_editor_up() {
    let session = EditSession::new(URL.to_string(), "vi".to_string());
    assert_eq!(session.state(), State::Init);
    assert_eq!(session.exit_status(), None);
    assert!(is_run(&session.pending(), "which", &["vi"], false));
}

#[test]
fn edit_with_diff_and_two_confirmations_uploads_once() {
    let mut session = EditSession::new(URL.to_string(), "vi".to_string());

    let action = session.step(success());
    assert_eq!(session.state(), State::Fetching);
    match &action {
        Action::Fetch { location } => {
            assert_eq!(location.bucket(), "mybucket");
            assert_eq!(location.key(), "notes.txt");
        }
        other => panic!("expected a download, got {:?}", other),
    }

    let action = session.step(Event::Fetched { path: ORIGINAL.to_string() });
    assert_eq!(session.state(), State::Downloaded);
    assert!(is_run(&action, "cp", &[ORIGINAL, WORKING], false));

    let action = session.step(success());
    assert_eq!(session.state(), State::CopyMade);
    assert!(is_run(&action, "which", &["git"], false));

    let action = session.step(success());
    assert_eq!(session.state(), State::Editing);
    assert!(is_run(&action, "vi", &[WORKING], true));

    let action = session.step(success());
    assert_eq!(session.state(), State::AwaitingEditConfirm);
    assert!(is_confirm(&action, "Do you finish editing?"));

    let action = session.step(yes());
    assert_eq!(session.state(), State::Diffing);
    assert!(is_run(
        &action,
        "git",
        &["diff", "--ignore-space-change", "--color", ORIGINAL, WORKING],
        false
    ));

    let action = session.step(exited(1, b"-old\n+new\n"));
    assert_eq!(session.state(), State::DiffShown);
    match &action {
        Action::Print { text } => assert_eq!(text, "git diff:-old\n+new\n"),
        other => panic!("expected the diff, got {:?}", other),
    }

    let action = session.step(Event::Printed);
    assert_eq!(session.state(), State::AwaitingCommitConfirm);
    assert!(is_confirm(&action, "Confirm your edits and commit?"));

    let action = session.step(yes());
    assert_eq!(session.state(), State::Uploading);
    assert!(is_upload(&action));

    let action = session.step(Event::Uploaded);
    assert_eq!(session.state(), State::Done);
    assert!(matches!(action, Action::Finish));
    assert_eq!(session.exit_status(), Some(0));
}

#[test]
fn whole_session_asks_for_one_diff_and_one_upload() {
    let mut session = EditSession::new(URL.to_string(), "vi".to_string());
    let counts = drive(
        &mut session,
        vec![
            success(),
            Event::Fetched { path: ORIGINAL.to_string() },
            success(),
            success(),
            success(),
            yes(),
            exited(0, b""),
            Event::Printed,
            yes(),
            Event::Uploaded,
        ],
    );
    assert_eq!(counts, (1, 1));
    assert_eq!(session.state(), State::Done);
}

#[test]
fn missing_editor_aborts_before_any_download() {
    let mut session = EditSession::new(URL.to_string(), "no-such-editor".to_string());
    assert!(is_run(&session.pending(), "which", &["no-such-editor"], false));
    let action = session.step(failure());
    assert_eq!(session.state(), State::Error(SessionError::EditorNotFound));
    assert!(is_abort(&action, SessionError::EditorNotFound, "editor no-such-editor not found"));
    assert_eq!(session.exit_status(), Some(1));
}

#[test]
fn editor_lookup_that_cannot_run_counts_as_missing() {
    let mut session = EditSession::new(URL.to_string(), "vi".to_string());
    let action = session.step(Event::Ran(RunOutcome::NotStarted));
    assert!(is_abort(&action, SessionError::EditorNotFound, "editor vi not found"));
}

#[test]
fn missing_editor_is_reported_before_a_bad_url() {
    let mut session = EditSession::new("mybucket/notes.txt".to_string(), "vi".to_string());
    session.step(failure());
    assert_eq!(session.state(), State::Error(SessionError::EditorNotFound));
}

#[test]
fn url_without_prefix_aborts_before_any_download() {
    let mut session = EditSession::new("mybucket/notes.txt".to_string(), "vi".to_string());
    let action = session.step(success());
    assert_eq!(session.state(), State::Error(SessionError::Parse(ParseError::InvalidScheme)));
    assert!(is_abort(
        &action,
        SessionError::Parse(ParseError::InvalidScheme),
        "Invalid s3 url, must start with s3://"
    ));
}

#[test]
fn url_with_nested_key_aborts_before_any_download() {
    let mut session = EditSession::new("s3://mybucket/a/b".to_string(), "vi".to_string());
    let action = session.step(success());
    assert!(is_abort(
        &action,
        SessionError::Parse(ParseError::InvalidPath),
        "Invalid s3 url, must have exactly full path example s3://bucket/key"
    ));
    assert_eq!(session.exit_status(), Some(1));
}

#[test]
fn commit_refused_once_gives_two_diffs_and_one_upload() {
    let mut session = editing(true);
    let counts = drive(
        &mut session,
        vec![
            success(),
            yes(),
            exited(1, b"first"),
            Event::Printed,
            no(),
            success(),
            yes(),
            exited(1, b"second"),
            Event::Printed,
            yes(),
            Event::Uploaded,
        ],
    );
    assert_eq!(counts, (2, 1));
    assert_eq!(session.state(), State::Done);
    assert_eq!(session.exit_status(), Some(0));
}

#[test]
fn commit_refused_reopens_the_editor() {
    let mut session = editing(true);
    session.step(success());
    session.step(yes());
    session.step(exited(0, b""));
    session.step(Event::Printed);
    let action = session.step(no());
    assert_eq!(session.state(), State::Editing);
    assert!(is_run(&action, "vi", &[WORKING], true));
}

#[test]
fn not_done_editing_reopens_the_editor() {
    let mut session = editing(true);
    session.step(success());
    let action = session.step(no());
    assert_eq!(session.state(), State::Editing);
    assert!(is_run(&action, "vi", &[WORKING], true));
    let action = session.step(success());
    assert!(is_confirm(&action, "Do you finish editing?"));
}

#[test]
fn editor_exit_code_is_ignored() {
    for event in [failure(), exited(130, b""), Event::Ran(RunOutcome::NotStarted)] {
        let mut session = editing(true);
        let action = session.step(event);
        assert_eq!(session.state(), State::AwaitingEditConfirm);
        assert!(is_confirm(&action, "Do you finish editing?"));
    }
}

#[test]
fn without_diff_tool_the_upload_follows_the_edit() {
    let mut session = editing(false);
    let counts = drive(&mut session, vec![success(), no(), success(), yes()]);
    assert_eq!(counts, (0, 1));
    assert_eq!(session.state(), State::Uploading);
    assert!(is_upload(&session.pending()));
    let action = session.step(Event::Uploaded);
    assert!(matches!(action, Action::Finish));
    assert_eq!(session.state(), State::Done);
}

#[test]
fn diff_tool_that_does_not_start_counts_as_absent() {
    let mut session = EditSession::new(URL.to_string(), "vi".to_string());
    session.step(success());
    session.step(Event::Fetched { path: ORIGINAL.to_string() });
    session.step(success());
    session.step(Event::Ran(RunOutcome::NotStarted));
    session.step(success());
    let action = session.step(yes());
    assert!(is_upload(&action));
}

#[test]
fn failed_copy_aborts() {
    for event in [failure(), Event::Ran(RunOutcome::NotStarted)] {
        let mut session = EditSession::new(URL.to_string(), "vi".to_string());
        session.step(success());
        session.step(Event::Fetched { path: ORIGINAL.to_string() });
        let action = session.step(event);
        assert_eq!(session.state(), State::Error(SessionError::Io(IoError::CopyFailed)));
        assert!(is_abort(&action, SessionError::Io(IoError::CopyFailed), "copy failed"));
    }
}

#[test]
fn failed_download_aborts_with_the_store_error() {
    let cases = [
        (StoreError::NotFound, "object not found"),
        (StoreError::AccessDenied, "access denied"),
        (StoreError::Transport, "transport error"),
    ];
    for (error, text) in cases {
        let mut session = EditSession::new(URL.to_string(), "vi".to_string());
        session.step(success());
        let action = session.step(Event::StoreFailed(error));
        assert_eq!(session.state(), State::Error(SessionError::Store(error)));
        assert!(is_abort(&action, SessionError::Store(error), text));
        assert_eq!(session.exit_status(), Some(1));
    }
}

#[test]
fn failed_upload_aborts() {
    let mut session = editing(false);
    session.step(success());
    session.step(yes());
    let action = session.step(Event::StoreFailed(StoreError::AccessDenied));
    assert!(is_abort(&action, SessionError::Store(StoreError::AccessDenied), "access denied"));
    assert_eq!(session.exit_status(), Some(1));
}

#[test]
fn local_file_failure_aborts() {
    let mut session = EditSession::new(URL.to_string(), "vi".to_string());
    session.step(success());
    let action = session.step(Event::IoFailed);
    assert!(is_abort(
        &action,
        SessionError::Io(IoError::LocalFile),
        "failed to read or write a local file"
    ));
}

#[test]
fn cancelled_prompt_aborts() {
    let mut session = editing(true);
    session.step(success());
    let action = session.step(Event::Cancelled);
    assert_eq!(session.state(), State::Error(SessionError::Cancelled));
    assert!(is_abort(&action, SessionError::Cancelled, "ctrl-c exit"));
    assert_eq!(session.exit_status(), Some(1));

    let mut session = editing(true);
    drive(&mut session, vec![success(), yes(), exited(0, b""), Event::Printed]);
    let action = session.step(Event::Cancelled);
    assert!(is_abort(&action, SessionError::Cancelled, "ctrl-c exit"));
}

#[test]
fn diff_tool_that_cannot_run_aborts() {
    let mut session = editing(true);
    session.step(success());
    session.step(yes());
    let action = session.step(Event::Ran(RunOutcome::NotStarted));
    assert!(is_abort(&action, SessionError::Io(IoError::DiffNotRun), "failed to run git diff"));
}

#[test]
fn diff_output_is_decoded_as_utf8() {
    let mut session = editing(true);
    session.step(success());
    session.step(yes());
    let action = session.step(exited(1, "-grün\n+blau €\n".as_bytes()));
    match &action {
        Action::Print { text } => assert_eq!(text, "git diff:-grün\n+blau €\n"),
        other => panic!("expected the diff, got {:?}", other),
    }
}

#[test]
fn diff_output_that_is_not_utf8_aborts() {
    let mut session = editing(true);
    session.step(success());
    session.step(yes());
    let action = session.step(exited(1, &[0x2d, 0xff, 0xfe, 0x0a]));
    assert_eq!(session.state(), State::Error(SessionError::Io(IoError::DiffNotText)));
    assert!(is_abort(
        &action,
        SessionError::Io(IoError::DiffNotText),
        "git diff printed invalid UTF-8"
    ));
}

#[test]
fn empty_diff_is_shown_too() {
    let mut session = editing(true);
    session.step(success());
    session.step(yes());
    let action = session.step(exited(0, b""));
    match &action {
        Action::Print { text } => assert_eq!(text, "git diff:"),
        other => panic!("expected the diff, got {:?}", other),
    }
}

#[test]
fn unexpected_outcome_aborts() {
    let mut session = EditSession::new(URL.to_string(), "vi".to_string());
    let action = session.step(yes());
    assert_eq!(session.state(), State::Error(SessionError::Protocol));
    assert!(is_abort(&action, SessionError::Protocol, "unexpected event"));

    let mut session = EditSession::new(URL.to_string(), "vi".to_string());
    session.step(Event::Uploaded);
    assert_eq!(session.state(), State::Error(SessionError::Protocol));

    let mut session = EditSession::new(URL.to_string(), "vi".to_string());
    session.step(Event::Fetched { path: ORIGINAL.to_string() });
    assert_eq!(session.state(), State::Error(SessionError::Protocol));

    let mut session = editing(true);
    session.step(Event::Printed);
    assert_eq!(session.state(), State::Error(SessionError::Protocol));

    let mut session = editing(true);
    session.step(success());
    session.step(success());
    assert_eq!(session.state(), State::Error(SessionError::Protocol));
}

#[test]
fn finished_session_stays_finished() {
    let mut session = editing(false);
    drive(&mut session, vec![success(), yes(), Event::Uploaded]);
    assert_eq!(session.state(), State::Done);
    let counts = drive(
        &mut session,
        vec![yes(), success(), Event::Cancelled, Event::Uploaded, Event::IoFailed],
    );
    assert_eq!(counts, (0, 0));
    assert_eq!(session.state(), State::Done);
    assert!(matches!(session.pending(), Action::Finish));
}

#[test]
fn failed_session_stays_failed() {
    let mut session = EditSession::new(URL.to_string(), "vi".to_string());
    session.step(failure());
    let counts = drive(
        &mut session,
        vec![
            success(),
            Event::Fetched { path: ORIGINAL.to_string() },
            yes(),
            Event::Uploaded,
            Event::Cancelled,
        ],
    );
    assert_eq!(counts, (0, 0));
    assert_eq!(session.state(), State::Error(SessionError::EditorNotFound));
    assert!(is_abort(
        &session.pending(),
        SessionError::EditorNotFound,
        "editor vi not found"
    ));
}

#[test]
fn pending_repeats_the_last_action() {
    let mut session = editing(true);
    let action = session.step(success());
    assert!(is_confirm(&action, "Do you finish editing?"));
    assert!(is_confirm(&session.pending(), "Do you finish editing?"));
    assert_eq!(session.state(), State::AwaitingEditConfirm);
}

#[test]
fn error_messages() {
    let cases = [
        (SessionError::Parse(ParseError::InvalidScheme), "Invalid s3 url, must start with s3://"),
        (
            SessionError::Parse(ParseError::InvalidPath),
            "Invalid s3 url, must have exactly full path example s3://bucket/key",
        ),
        (SessionError::EditorNotFound, "editor emacs not found"),
        (SessionError::Io(IoError::LocalFile), "failed to read or write a local file"),
        (SessionError::Io(IoError::CopyFailed), "copy failed"),
        (SessionError::Io(IoError::DiffNotRun), "failed to run git diff"),
        (SessionError::Io(IoError::DiffNotText), "git diff printed invalid UTF-8"),
        (SessionError::Store(StoreError::NotFound), "object not found"),
        (SessionError::Store(StoreError::AccessDenied), "access denied"),
        (SessionError::Store(StoreError::Transport), "transport error"),
        (SessionError::Cancelled, "ctrl-c exit"),
        (SessionError::Protocol, "unexpected event"),
    ];
    for (error, text) in cases {
        assert_eq!(error.message("emacs"), text);
    }
}
