//! What holds of every edit session, whatever the driver reports.

use vstd::prelude::*;
use crate::location::parse_url;
use crate::process::{ran_successfully, RunOutcomeView};
use crate::session::{
    initial, is_over, next_state, past_init, pending_action, target, well_formed, working_copy,
    ActionView, EventView, IoError, SessionError, SessionView, State,
};

verus! {

/// The session after a whole sequence of outcomes, taken in order.
pub open spec fn run(s: SessionView, events: Seq<EventView>) -> SessionView
    decreases events.len(),
{
    if events.len() == 0 {
        s
    } else {
        next_state(run(s, events.drop_last()), events.last())
    }
}

/// How many of the steps of a run asked for an upload: those that ended in
/// `Uploading`.
pub open spec fn uploads(s: SessionView, events: Seq<EventView>) -> nat
    decreases events.len(),
{
    if events.len() == 0 {
        0
    } else {
        uploads(s, events.drop_last()) + if run(s, events).state is Uploading {
            1nat
        } else {
            0nat
        }
    }
}

/// A new session is well formed.
pub proof fn lemma_initial_is_well_formed(url: Seq<char>, editor: Seq<char>)
    ensures
        well_formed(initial(url, editor)),
        initial(url, editor).state is Init,
{
}

/// No outcome changes the URL or the editor, and a well-formed session
/// stays well formed: the session edits one object from start to end.
pub proof fn lemma_step_keeps_target(s: SessionView, e: EventView)
    ensures
        next_state(s, e).url == s.url,
        next_state(s, e).editor == s.editor,
        target(next_state(s, e)) == target(s),
        well_formed(s) ==> well_formed(next_state(s, e)),
{
}

/// The path of the downloaded original is set by the download and by
/// nothing else, so the working copy that is edited, compared and uploaded
/// is the copy of what was downloaded.
pub proof fn lemma_original_is_the_download(s: SessionView, e: EventView)
    ensures
        next_state(s, e).original != s.original ==> s.state is Fetching && e is Fetched
            && next_state(s, e).state is Downloaded,
        !(s.state is Fetching) ==> working_copy(next_state(s, e)) == working_copy(s),
{
}

/// A session that is over stays as it is.
pub proof fn lemma_over_is_final(s: SessionView, e: EventView)
    requires
        is_over(s.state),
    ensures
        next_state(s, e) == s,
{
}

/// A cancellation, a failure of the store or of a local file ends a running
/// session in `Error`, from every state.
pub proof fn lemma_failures_end_the_session(s: SessionView, e: EventView)
    requires
        !is_over(s.state),
    ensures
        e is Cancelled ==> next_state(s, e).state == State::Error(SessionError::Cancelled),
        e matches EventView::StoreFailed(error) ==> next_state(s, e).state == State::Error(
            SessionError::Store(error),
        ),
        e is IoFailed ==> next_state(s, e).state == State::Error(
            SessionError::Io(IoError::LocalFile),
        ),
{
}

/// The download is asked for only from `Init`, after the editor was found,
/// and only for a URL that names an object.
pub proof fn lemma_fetch_needs_editor(s: SessionView, e: EventView)
    requires
        next_state(s, e).state is Fetching,
        !(s.state is Fetching),
    ensures
        s.state is Init,
        e matches EventView::Ran(outcome) && ran_successfully(outcome),
        parse_url(s.url) is Ok,
{
}

/// Without the editor a new session fails at once, whatever the URL is.
pub proof fn lemma_missing_editor(url: Seq<char>, editor: Seq<char>, outcome: RunOutcomeView)
    requires
        !ran_successfully(outcome),
    ensures
        next_state(initial(url, editor), EventView::Ran(outcome)).state == State::Error(
            SessionError::EditorNotFound,
        ),
{
}

/// With the editor, a new session fails for its URL exactly when the URL
/// names no object, and with the error of the parse.
pub proof fn lemma_bad_url(url: Seq<char>, editor: Seq<char>, outcome: RunOutcomeView)
    requires
        ran_successfully(outcome),
    ensures
        match parse_url(url) {
            Ok(_) => next_state(initial(url, editor), EventView::Ran(outcome)).state is Fetching,
            Err(error) => next_state(initial(url, editor), EventView::Ran(outcome)).state
                == State::Error(SessionError::Parse(error)),
        },
{
}

/// The upload is asked for only by a "yes": to the commit prompt, or to the
/// edit prompt on a host without the diff tool. Nothing else leads there, so
/// the stored object is not touched before.
pub proof fn lemma_upload_needs_yes(s: SessionView, e: EventView)
    requires
        next_state(s, e).state is Uploading,
    ensures
        e == (EventView::Answered { yes: true }),
        s.state is AwaitingCommitConfirm || (s.state is AwaitingEditConfirm && !s.diff_tool),
{
}

/// With the diff tool on the host, "yes" to the edit prompt leads to the
/// diff and never past it.
pub proof fn lemma_diff_is_not_skipped(s: SessionView, yes: bool)
    requires
        s.state is AwaitingEditConfirm,
        s.diff_tool,
    ensures
        next_state(s, EventView::Answered { yes }).state == if yes {
            State::Diffing
        } else {
            State::Editing
        },
{
}

/// "No" to either prompt leads back into the editor: a running session is
/// never given up by an answer.
pub proof fn lemma_no_reopens_the_editor(s: SessionView)
    requires
        s.state is AwaitingEditConfirm || s.state is AwaitingCommitConfirm,
    ensures
        next_state(s, EventView::Answered { yes: false }).state is Editing,
        pending_action(next_state(s, EventView::Answered { yes: false })) is Run,
{
}

/// However the editor ended, the edit prompt follows.
pub proof fn lemma_editor_exit_is_ignored(s: SessionView, outcome: RunOutcomeView)
    requires
        s.state is Editing,
    ensures
        next_state(s, EventView::Ran(outcome)).state is AwaitingEditConfirm,
{
}

/// The program is told to end exactly when the session is over, and to
/// upload exactly in `Uploading`; the object named is the one the URL names.
pub proof fn lemma_actions_by_state(s: SessionView)
    ensures
        pending_action(s) is Finish <==> s.state is Done,
        pending_action(s) is Abort <==> s.state is Error,
        pending_action(s) is Upload <==> s.state is Uploading,
        pending_action(s) is Fetch <==> s.state is Fetching,
        pending_action(s) matches ActionView::Upload { location, source } ==> location == target(s)
            && source == working_copy(s),
        pending_action(s) matches ActionView::Fetch { location } ==> location == target(s),
{
}

/// Running a sequence of outcomes and then one more is running the longer
/// sequence.
pub proof fn lemma_run_push(s: SessionView, events: Seq<EventView>, e: EventView)
    ensures
        run(s, events.push(e)) == next_state(run(s, events), e),
        uploads(s, events.push(e)) == uploads(s, events) + if next_state(run(s, events), e).state
            is Uploading {
            1nat
        } else {
            0nat
        },
{
    assert(events.push(e).drop_last() =~= events);
}

/// A session that is over stays as it is through any sequence of outcomes,
/// and asks for no upload.
pub proof fn lemma_over_stays_over(s: SessionView, events: Seq<EventView>)
    requires
        is_over(s.state),
    ensures
        run(s, events) == s,
        uploads(s, events) == 0,
    decreases events.len(),
{
    if events.len() > 0 {
        lemma_over_stays_over(s, events.drop_last());
    }
}

/// A run that begins with the outcome `e` is the run of the rest from the
/// state after `e`.
pub proof fn lemma_run_first(s: SessionView, e: EventView, rest: Seq<EventView>)
    ensures
        run(s, seq![e] + rest) == run(next_state(s, e), rest),
    decreases rest.len(),
{
    let all = seq![e] + rest;
    if rest.len() == 0 {
        assert(all.drop_last() =~= Seq::<EventView>::empty());
        assert(all.last() == e);
        assert(run(s, all.drop_last()) == s);
        assert(run(next_state(s, e), rest) == next_state(s, e));
    } else {
        assert(all.drop_last() =~= seq![e] + rest.drop_last());
        assert(all.last() == rest.last());
        lemma_run_first(s, e, rest.drop_last());
    }
}

/// Without the editor nothing is downloaded and nothing uploaded, whatever
/// the driver reports afterwards: the session is in `Error` with
/// `EditorNotFound` for good.
pub proof fn lemma_missing_editor_is_final(
    url: Seq<char>,
    editor: Seq<char>,
    outcome: RunOutcomeView,
    rest: Seq<EventView>,
)
    requires
        !ran_successfully(outcome),
    ensures
        run(initial(url, editor), seq![EventView::Ran(outcome)] + rest).state == State::Error(
            SessionError::EditorNotFound,
        ),
{
    let first = EventView::Ran(outcome);
    lemma_run_first(initial(url, editor), first, rest);
    lemma_over_stays_over(next_state(initial(url, editor), first), rest);
}

/// In every run, from every state, at most one step asks for an upload, and
/// after it the session is uploading or over.
pub proof fn lemma_at_most_one_upload(s: SessionView, events: Seq<EventView>)
    ensures
        uploads(s, events) <= 1,
        uploads(s, events) == 1 ==> run(s, events).state is Uploading || is_over(
            run(s, events).state,
        ),
    decreases events.len(),
{
    if events.len() > 0 {
        lemma_at_most_one_upload(s, events.drop_last());
    }
}

/// A run that begins before the upload and ends in `Done` has asked for
/// exactly one upload.
pub proof fn lemma_done_after_one_upload(s: SessionView, events: Seq<EventView>)
    requires
        !(s.state is Uploading),
        !(s.state is Done),
    ensures
        run(s, events).state is Uploading || run(s, events).state is Done ==> uploads(s, events)
            == 1,
    decreases events.len(),
{
    if events.len() > 0 {
        lemma_done_after_one_upload(s, events.drop_last());
        lemma_at_most_one_upload(s, events);
    }
}

/// Every state of a run from a new session is well formed, and the run
/// edits the object that the session's URL names.
pub proof fn lemma_run_keeps_target(url: Seq<char>, editor: Seq<char>, events: Seq<EventView>)
    ensures
        well_formed(run(initial(url, editor), events)),
        run(initial(url, editor), events).url == url,
        run(initial(url, editor), events).editor == editor,
        past_init(run(initial(url, editor), events).state) ==> parse_url(url) is Ok,
    decreases events.len(),
{
    if events.len() > 0 {
        lemma_run_keeps_target(url, editor, events.drop_last());
        lemma_step_keeps_target(run(initial(url, editor), events.drop_last()), events.last());
    }
}

/// The states in which the object is in a local file.
pub open spec fn has_download(state: State) -> bool {
    past_init(state) && !(state is Fetching)
}

/// Whether the outcome number `i` of `events` is the download of the file
/// at `path`, reported when a new session for `url` had asked for the
/// object that `url` names.
pub open spec fn downloaded_at(
    url: Seq<char>,
    editor: Seq<char>,
    events: Seq<EventView>,
    i: int,
    path: Seq<char>,
) -> bool {
    &&& 0 <= i < events.len()
    &&& events[i] == (EventView::Fetched { path })
    &&& pending_action(run(initial(url, editor), events.take(i))) == (ActionView::Fetch {
        location: target(initial(url, editor)),
    })
}

/// Once a session has its download, the file it works on is the copy of
/// the file that was downloaded for its URL, and that is what it uploads to
/// the object the URL names: what the store gets is what the store gave,
/// but for the user's edits.
pub proof fn lemma_upload_returns_the_download(
    url: Seq<char>,
    editor: Seq<char>,
    events: Seq<EventView>,
)
    ensures
        ({
            let s = run(initial(url, editor), events);
            &&& has_download(s.state) ==> exists|i: int| #[trigger]
                downloaded_at(url, editor, events, i, s.original)
            &&& s.state is Uploading ==> pending_action(s) == (ActionView::Upload {
                location: target(initial(url, editor)),
                source: working_copy(s),
            })
        }),
    decreases events.len(),
{
    let start = initial(url, editor);
    let s = run(start, events);
    lemma_run_keeps_target(url, editor, events);
    if events.len() > 0 && has_download(s.state) {
        let before = events.drop_last();
        let prev = run(start, before);
        lemma_upload_returns_the_download(url, editor, before);
        if prev.state is Fetching {
            assert(events.take(events.len() - 1) =~= before);
            lemma_run_keeps_target(url, editor, before);
            assert(downloaded_at(url, editor, events, events.len() - 1, s.original));
        } else {
            let i = choose|i: int| #[trigger] downloaded_at(url, editor, before, i, prev.original);
            assert(events.take(i) =~= before.take(i));
            assert(downloaded_at(url, editor, events, i, s.original));
        }
    }
}

} // verus!
