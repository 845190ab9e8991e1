//! One update of one title, seen from the single consumer of its events.
//!
//! Two readers turn the lines of the tool's two output streams into events
//! (`stdout_event`, `stderr_event`) and hand them to one consumer in the
//! order in which they arrive. The consumer forwards each event to the
//! caller and shows it to the run (`UpdateRun::observe`) until the run has
//! seen a terminal event. When the tool has exited, the run is concluded
//! (`UpdateRun::conclude`): that gives the last event and the result.

use crate::error::Error;
use crate::steam::parser::{
    download_progress_of, parse_download_progress, parse_update_status, update_status_of,
};
use crate::steam::{Progress, UpdateState, UpdateStatus, UpdateStatusView};
use crate::text::{chars_of, contains, contains_chars, opt_view, owned, string_of};
use vstd::prelude::*;

verus! {

/// The event that opens every update.
pub open spec fn starting_event() -> UpdateStatusView {
    UpdateStatusView {
        progress: Progress { current: 0, total: 0 },
        status: "Starting update..."@,
        state: UpdateState::Starting,
        error: None,
    }
}

/// The event that closes an update that succeeded.
pub open spec fn completed_event() -> UpdateStatusView {
    UpdateStatusView {
        progress: Progress { current: 1, total: 1 },
        status: "Update completed"@,
        state: UpdateState::Complete,
        error: None,
    }
}

/// The event that reports a failure with the given text.
pub open spec fn error_event(text: Seq<char>) -> UpdateStatusView {
    UpdateStatusView {
        progress: Progress { current: 0, total: 0 },
        status: Seq::empty(),
        state: UpdateState::Error,
        error: Some(text),
    }
}

/// The event that a line of the tool's error stream stands for: a failure
/// with the line as its text where the line contains `ERROR`, and none
/// otherwise.
pub open spec fn stderr_event_of(line: Seq<char>) -> Option<UpdateStatusView> {
    if contains(line, "ERROR"@) {
        Some(error_event(line))
    } else {
        None
    }
}

/// The event that a line of the tool's output stands for when only the
/// transfer is followed: one in state `Downloading` where the line reports
/// counts, and none otherwise.
pub open spec fn download_event_of(line: Seq<char>) -> Option<UpdateStatusView> {
    match download_progress_of(line) {
        Some((current, total)) => Some(
            UpdateStatusView {
                progress: Progress { current, total },
                status: line,
                state: UpdateState::Downloading,
                error: None,
            },
        ),
        None => None,
    }
}

/// What the consumer of a run's events has seen so far.
#[derive(Debug, Clone)]
pub enum Observed {
    /// No terminal event yet.
    Nothing,
    /// The tool reported that it was done.
    Completed,
    /// The tool reported a failure, with this text if it gave one.
    Failed(Option<String>),
}

/// What an `Observed` holds.
pub enum ObservedView {
    Nothing,
    Completed,
    Failed(Option<Seq<char>>),
}

impl View for Observed {
    type V = ObservedView;

    open spec fn view(&self) -> ObservedView {
        match self {
            Observed::Nothing => ObservedView::Nothing,
            Observed::Completed => ObservedView::Completed,
            Observed::Failed(text) => ObservedView::Failed(opt_view(*text)),
        }
    }
}

/// What has been seen after one more event. The first terminal event
/// decides; events after it change nothing.
pub open spec fn observed_after(seen: ObservedView, event: UpdateStatusView) -> ObservedView {
    match seen {
        ObservedView::Nothing => match event.state {
            UpdateState::Complete => ObservedView::Completed,
            UpdateState::Error => ObservedView::Failed(event.error),
            _ => ObservedView::Nothing,
        },
        _ => seen,
    }
}

/// What has been seen after a sequence of events, in their order.
pub open spec fn observed_after_all(
    seen: ObservedView,
    events: Seq<UpdateStatusView>,
) -> ObservedView
    decreases events.len(),
{
    if events.len() == 0 {
        seen
    } else {
        observed_after_all(observed_after(seen, events[0]), events.drop_first())
    }
}

/// The number of events that the consumer forwards: those up to the first
/// terminal one, that one included.
pub open spec fn forwarded_count(events: Seq<UpdateStatusView>) -> nat
    decreases events.len(),
{
    if events.len() == 0 {
        0
    } else if events[0].state.is_terminal() {
        1
    } else {
        1 + forwarded_count(events.drop_first())
    }
}

/// An update succeeds when the tool both reported that it was done and
/// exited with success. Nothing else is a success: not an exit with success
/// after a reported failure or with no terminal event at all, and not a
/// reported completion followed by an exit with failure.
pub open spec fn succeeded(seen: ObservedView, exit_ok: bool) -> bool {
    seen is Completed && exit_ok
}

/// The text of a failure: what the tool's error stream said, where the
/// failure was seen there, and `Update process failed` otherwise.
pub open spec fn failure_text(seen: ObservedView) -> Seq<char> {
    match seen {
        ObservedView::Failed(Some(text)) => text,
        _ => "Update process failed"@,
    }
}

/// The last event of a run.
pub open spec fn closing_event(seen: ObservedView, exit_ok: bool) -> UpdateStatusView {
    if succeeded(seen, exit_ok) {
        completed_event()
    } else {
        error_event(failure_text(seen))
    }
}

/// The event that a line of the tool's standard output stands for.
pub fn stdout_event(line: &str) -> (event: UpdateStatus)
    ensures
        event@ == update_status_of(line@),
{
    match parse_update_status(line) {
        Ok(event) => event,
        Err(_) => UpdateStatus::default(),
    }
}

/// The event that a line of the tool's error stream stands for, if any.
pub fn stderr_event(line: &str) -> (event: Option<UpdateStatus>)
    ensures
        match event {
            Some(e) => stderr_event_of(line@) == Some(e@),
            None => stderr_event_of(line@) is None,
        },
{
    let chars = chars_of(line);
    if contains_chars(&chars, &chars_of("ERROR")) {
        Some(
            UpdateStatus {
                progress: Progress::none(),
                status: String::new(),
                state: UpdateState::Error,
                error: Some(string_of(&chars)),
            },
        )
    } else {
        None
    }
}

/// The event that a line of the tool's output stands for when only the
/// transfer is followed, if any.
pub fn download_event(line: &str) -> (event: Option<UpdateStatus>)
    ensures
        match event {
            Some(e) => download_event_of(line@) == Some(e@),
            None => download_event_of(line@) is None,
        },
{
    match parse_download_progress(line) {
        Some((current, total)) => Some(
            UpdateStatus {
                progress: Progress { current, total },
                status: owned(line),
                state: UpdateState::Downloading,
                error: None,
            },
        ),
        None => None,
    }
}

/// One update of one title.
#[derive(Debug, Clone)]
pub struct UpdateRun {
    pub app_id: u32,
    pub observed: Observed,
}

impl UpdateRun {
    /// A run for `app_id` that has seen nothing, with the event that opens
    /// it. The event is handed to the caller before the tool is started.
    pub fn begin(app_id: u32) -> (started: (UpdateRun, UpdateStatus))
        ensures
            started.0.app_id == app_id,
            started.0.observed@ == ObservedView::Nothing,
            started.1@ == starting_event(),
    {
        (
            UpdateRun { app_id, observed: Observed::Nothing },
            UpdateStatus {
                progress: Progress::none(),
                status: owned("Starting update..."),
                state: UpdateState::Starting,
                error: None,
            },
        )
    }

    /// Shows the run an event that was forwarded to the caller, and says
    /// whether the consumer stops: it does once a terminal event was seen.
    pub fn observe(&mut self, event: &UpdateStatus) -> (stop: bool)
        ensures
            final(self).app_id == old(self).app_id,
            final(self).observed@ == observed_after(old(self).observed@, event@),
            stop == !(final(self).observed@ is Nothing),
    {
        match &self.observed {
            Observed::Nothing => {
                match event.state {
                    UpdateState::Complete => {
                        self.observed = Observed::Completed;
                        true
                    },
                    UpdateState::Error => {
                        self.observed = Observed::Failed(event.error.clone());
                        true
                    },
                    _ => false,
                }
            },
            _ => true,
        }
    }

    /// Shows the run the events of `events` in their order, as far as the
    /// consumer forwards them, and says how many it forwarded. A run that
    /// has seen a terminal event before forwards none.
    pub fn observe_all(&mut self, events: &Vec<UpdateStatus>) -> (count: usize)
        ensures
            final(self).app_id == old(self).app_id,
            final(self).observed@ == observed_after_all(old(self).observed@, event_views(events@)),
            count == if old(self).observed@ is Nothing {
                forwarded_count(event_views(events@))
            } else {
                0
            },
    {
        match &self.observed {
            Observed::Nothing => {},
            _ => {
                proof {
                    lemma_seen_stays(self.observed@, event_views(events@));
                }
                return 0;
            },
        }
        let mut i: usize = 0;
        assert(event_views(events@).skip(0) =~= event_views(events@));
        while i < events.len()
            invariant
                i <= events.len(),
                self.app_id == old(self).app_id,
                self.observed@ is Nothing,
                old(self).observed@ is Nothing,
                i + forwarded_count(event_views(events@).skip(i as int)) == forwarded_count(
                    event_views(events@),
                ),
                observed_after_all(ObservedView::Nothing, event_views(events@).skip(i as int))
                    == observed_after_all(ObservedView::Nothing, event_views(events@)),
            decreases events.len() - i,
        {
            let ghost rest = event_views(events@).skip(i as int);
            assert(rest[0] == events@[i as int]@);
            assert(rest.drop_first() =~= event_views(events@).skip(i + 1));
            if self.observe(&events[i]) {
                proof {
                    lemma_seen_stays(self.observed@, rest.drop_first());
                }
                return i + 1;
            }
            i += 1;
        }
        i
    }

    /// Ends a run whose tool could not be started: the last event for the
    /// caller, and the error, both with what the system said.
    pub fn spawn_failed(self, detail: &str) -> (end: (UpdateStatus, Error))
        ensures
            end.0@ == error_event(detail@),
            end.1 matches Error::ProcessError(text) && text@ == detail@,
    {
        (
            UpdateStatus {
                progress: Progress::none(),
                status: String::new(),
                state: UpdateState::Error,
                error: Some(owned(detail)),
            },
            Error::ProcessError(owned(detail)),
        )
    }

    /// Concludes the run once the tool has exited: the last event for the
    /// caller, and the result.
    pub fn conclude(self, exit_ok: bool) -> (end: (UpdateStatus, Result<(), Error>))
        ensures
            end.0@ == closing_event(self.observed@, exit_ok),
            end.1 is Ok <==> succeeded(self.observed@, exit_ok),
            end.1 matches Err(e) ==> e matches Error::ProcessError(text) && text@ == failure_text(
                self.observed@,
            ),
    {
        let text: String = match self.observed {
            Observed::Completed => {
                if exit_ok {
                    return (
                        UpdateStatus {
                            progress: Progress::full(),
                            status: owned("Update completed"),
                            state: UpdateState::Complete,
                            error: None,
                        },
                        Ok(()),
                    );
                }
                owned("Update process failed")
            },
            Observed::Failed(Some(text)) => text,
            _ => owned("Update process failed"),
        };
        (
            UpdateStatus {
                progress: Progress::none(),
                status: String::new(),
                state: UpdateState::Error,
                error: Some(text.clone()),
            },
            Err(Error::ProcessError(text)),
        )
    }
}

/// What a list of events holds.
pub open spec fn event_views(events: Seq<UpdateStatus>) -> Seq<UpdateStatusView> {
    Seq::new(events.len(), |i: int| events[i]@)
}

/// The first terminal event decides a run: the consumer forwards the events
/// up to it and no more, and what the run has seen is what that event says,
/// whatever follows it in either stream.
pub proof fn first_terminal_event_decides(events: Seq<UpdateStatusView>, i: int)
    requires
        0 <= i < events.len(),
        events[i].state.is_terminal(),
        forall|j: int| 0 <= j < i ==> !(#[trigger] events[j]).state.is_terminal(),
    ensures
        forwarded_count(events) == i + 1,
        observed_after_all(ObservedView::Nothing, events) == observed_after(
            ObservedView::Nothing,
            events[i],
        ),
    decreases i,
{
    if i == 0 {
        lemma_seen_stays(observed_after(ObservedView::Nothing, events[0]), events.drop_first());
    } else {
        let rest = events.drop_first();
        assert(rest[i - 1] == events[i]);
        assert forall|j: int| 0 <= j < i - 1 implies !(#[trigger] rest[j]).state.is_terminal() by {
            assert(rest[j] == events[j + 1]);
        }
        assert(!events[0].state.is_terminal());
        first_terminal_event_decides(rest, i - 1);
    }
}

/// A run in which the tool reports a failure before it reports completion
/// fails with the text of that report, whether the tool then exits with
/// success or not.
pub proof fn reported_failure_fails_the_run(
    events: Seq<UpdateStatusView>,
    i: int,
    text: Seq<char>,
    exit_ok: bool,
)
    requires
        0 <= i < events.len(),
        events[i].state == UpdateState::Error,
        events[i].error == Some(text),
        forall|j: int| 0 <= j < i ==> !(#[trigger] events[j]).state.is_terminal(),
    ensures
        !succeeded(observed_after_all(ObservedView::Nothing, events), exit_ok),
        failure_text(observed_after_all(ObservedView::Nothing, events)) == text,
        closing_event(observed_after_all(ObservedView::Nothing, events), exit_ok) == error_event(
            text,
        ),
{
    first_terminal_event_decides(events, i);
}

/// A run without a terminal event fails with the general text, however
/// the tool exits; every one of its events is forwarded.
pub proof fn run_without_terminal_event_fails(events: Seq<UpdateStatusView>, exit_ok: bool)
    requires
        forall|j: int| 0 <= j < events.len() ==> !(#[trigger] events[j]).state.is_terminal(),
    ensures
        forwarded_count(events) == events.len(),
        observed_after_all(ObservedView::Nothing, events) == ObservedView::Nothing,
        !succeeded(observed_after_all(ObservedView::Nothing, events), exit_ok),
        failure_text(observed_after_all(ObservedView::Nothing, events)) == "Update process failed"@,
    decreases events.len(),
{
    if events.len() > 0 {
        let rest = events.drop_first();
        assert(!events[0].state.is_terminal());
        assert forall|j: int| 0 <= j < rest.len() implies !(#[trigger] rest[j]).state.is_terminal(
        ) by {
            assert(rest[j] == events[j + 1]);
        }
        run_without_terminal_event_fails(rest, exit_ok);
    }
}

/// A run in which the tool reports completion before any failure succeeds
/// exactly when the tool exits with success, and then closes with the
/// event of completion.
pub proof fn reported_completion_needs_clean_exit(
    events: Seq<UpdateStatusView>,
    i: int,
    exit_ok: bool,
)
    requires
        0 <= i < events.len(),
        events[i].state == UpdateState::Complete,
        forall|j: int| 0 <= j < i ==> !(#[trigger] events[j]).state.is_terminal(),
    ensures
        succeeded(observed_after_all(ObservedView::Nothing, events), exit_ok) == exit_ok,
        exit_ok ==> closing_event(observed_after_all(ObservedView::Nothing, events), exit_ok)
            == completed_event(),
{
    first_terminal_event_decides(events, i);
}

/// Once a terminal event was seen, later events change nothing.
pub proof fn lemma_seen_stays(seen: ObservedView, events: Seq<UpdateStatusView>)
    requires
        !(seen is Nothing),
    ensures
        observed_after_all(seen, events) == seen,
    decreases events.len(),
{
    if events.len() > 0 {
        lemma_seen_stays(seen, events.drop_first());
    }
}

} // verus!
