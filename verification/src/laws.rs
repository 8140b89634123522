//! What holds of every run, whatever its driver reports.

use crate::archive::{saving_path_text, zipped};
use crate::config::{resolved_token, CliView};
use crate::error::BackupErrorView;
use crate::events::{ActionView, EffectView, EventView, OutcomeView};
use crate::model::{Phase, RunView};
use crate::repository::{selected, OwnerView, RepositoryView};
use crate::request::{
    accepted, archive_request_view, is_error_status, repos_request_view, RawResponseView,
    MAX_PAGES, PAGE_SIZE,
};
use crate::text::{saved_text, summary_text};
use vstd::prelude::*;

verus! {

/// Whether `outcome` leaves the disk and the progress indicator alone: it
/// asks for no archive to be written and sets up no progress indicator.
pub open spec fn is_quiet(outcome: OutcomeView) -> bool {
    &&& !(outcome.action is Write)
    &&& forall|k: int|
        0 <= k < outcome.effects.len() ==> !(#[trigger] outcome.effects[k] is CreateProgress)
}

/// A run that has not started is in a valid state.
pub proof fn lemma_initial_is_valid(config: CliView, owner: Option<OwnerView>)
    ensures
        RunView::initial(config, owner).wf(),
        RunView::initial(config, owner).phase == Phase::Idle,
{
}

/// Every step leads from a valid state to a valid state.
pub proof fn lemma_step_keeps_valid(pre: RunView, event: EventView)
    requires
        pre.wf(),
    ensures
        pre.step(event).0.wf(),
{
}

/// Every state that a run reaches from a valid state is valid.
pub proof fn lemma_run_stays_valid(start: RunView, events: Seq<EventView>)
    requires
        start.wf(),
    ensures
        start.after(events).wf(),
    decreases events.len(),
{
    if events.len() > 0 {
        lemma_run_stays_valid(start, events.drop_last());
        lemma_step_keeps_valid(start.after(events.drop_last()), events.last());
    }
}

/// A step never lowers the count of failures, and the count never exceeds
/// the number of repositories that the run set out to back up.
pub proof fn lemma_step_never_lowers_failed(pre: RunView, event: EventView)
    requires
        pre.wf(),
    ensures
        pre.failed <= pre.step(event).0.failed,
        pre.step(event).0.failed <= pre.step(event).0.total(),
{
}

/// Over a run the count of failures never decreases: after more events it
/// is at least what it was after fewer. At every point it is at most the
/// number of repositories that the run set out to back up.
pub proof fn lemma_failed_never_decreases(start: RunView, events: Seq<EventView>, upto: int)
    requires
        start.wf(),
        0 <= upto <= events.len(),
    ensures
        start.after(events.take(upto)).failed <= start.after(events).failed,
        start.after(events).failed <= start.after(events).total(),
    decreases events.len(),
{
    lemma_run_stays_valid(start, events);
    if upto == events.len() {
        assert(events.take(upto) =~= events);
    } else {
        let front = events.drop_last();
        assert(front.take(upto) =~= events.take(upto));
        lemma_failed_never_decreases(start, front, upto);
        lemma_run_stays_valid(start, front);
        lemma_step_never_lowers_failed(start.after(front), events.last());
    }
}

/// Once the list of repositories stands, no step changes it, and no step
/// leads back to the lookup or to an aborted run.
pub proof fn lemma_step_keeps_settled_list(pre: RunView, event: EventView)
    requires
        pre.phase.is_settled(),
    ensures
        pre.step(event).0.phase.is_settled(),
        pre.step(event).0.repos == pre.repos,
{
}

/// Once the list of repositories stands, it is the same at every later
/// point of the run: the repositories to back up are fixed before the first
/// archive is fetched.
pub proof fn lemma_settled_list_is_fixed(start: RunView, events: Seq<EventView>, upto: int)
    requires
        0 <= upto <= events.len(),
        start.after(events.take(upto)).phase.is_settled(),
    ensures
        start.after(events).phase.is_settled(),
        start.after(events).repos == start.after(events.take(upto)).repos,
    decreases events.len(),
{
    if upto == events.len() {
        assert(events.take(upto) =~= events);
    } else {
        let front = events.drop_last();
        assert(front.take(upto) =~= events.take(upto));
        lemma_settled_list_is_fixed(start, front, upto);
        lemma_step_keeps_settled_list(start.after(front), events.last());
    }
}

/// The listing ends with a page that is not full, or with the last page
/// that a run asks for. The repositories to back up are then chosen from
/// all the pages that came, in their order: all of them where other
/// accounts are allowed, else those of the account. The progress indicator
/// is set up for as many.
pub proof fn lemma_complete_listing_is_selected(pre: RunView, page: Seq<RepositoryView>)
    requires
        pre.wf(),
        pre.phase == Phase::DecodingRepositories,
        page.len() < PAGE_SIZE || pre.pages + 1 >= MAX_PAGES,
    ensures
        ({
            let (post, outcome) = pre.step(EventView::PageDecoded(Ok(page)));
            &&& post.phase.is_settled()
            &&& post.repos == selected(
                pre.config.allow_others_repos,
                pre.listed + page,
                pre.login(),
            )
            &&& post.cursor == 0
            &&& post.failed == 0
            &&& outcome.effects == seq![EffectView::CreateProgress { total: post.repos.len() }]
        }),
{
}

/// A full page that is not the last one that a run asks for is followed by
/// the request for the next page.
pub proof fn lemma_full_page_asks_for_next(pre: RunView, page: Seq<RepositoryView>)
    requires
        pre.wf(),
        pre.phase == Phase::DecodingRepositories,
        page.len() >= PAGE_SIZE,
        pre.pages + 1 < MAX_PAGES,
    ensures
        ({
            let (post, outcome) = pre.step(EventView::PageDecoded(Ok(page)));
            &&& post.phase == Phase::Listing
            &&& post.listed == pre.listed + page
            &&& post.pages == pre.pages + 1
            &&& outcome.action == ActionView::Send(
                repos_request_view(pre.token, pre.login(), pre.pages + 2),
            )
            &&& outcome.effects.len() == 0
        }),
{
}

/// A report states the counts of the run at that point: its total is the
/// number of repositories that the run set out to back up, however many of
/// them failed, and its message speaks of the same counts.
pub proof fn lemma_report_states_the_counts(pre: RunView, event: EventView)
    requires
        pre.wf(),
        pre.step(event).1.action is Report,
    ensures
        ({
            let (post, outcome) = pre.step(event);
            &&& post.phase == Phase::Reporting
            &&& outcome.action->Report_summary.total == post.repos.len()
            &&& outcome.action->Report_summary.failed == post.failed
            &&& post.failed <= post.repos.len()
            &&& outcome.action->Report_message == summary_text(
                (post.repos.len() - post.failed) as nat,
                post.failed,
            )
        }),
{
}

/// The total of a report is the length of the list of repositories as it
/// stands at the end of the run, whatever happened in between.
pub proof fn lemma_report_total_is_length_of_list(start: RunView, events: Seq<EventView>, i: int)
    requires
        start.wf(),
        0 <= i < events.len(),
        start.outcome_at(events, i).action is Report,
    ensures
        start.outcome_at(events, i).action->Report_summary.total == start.after(events).repos.len(),
        start.outcome_at(events, i).action->Report_summary.failed <= start.after(events).repos.len(),
{
    let pre = start.after(events.take(i));
    lemma_run_stays_valid(start, events.take(i));
    lemma_report_states_the_counts(pre, events[i]);
    assert(events.take(i + 1).drop_last() =~= events.take(i));
    assert(start.after(events.take(i + 1)) == pre.step(events[i]).0);
    lemma_settled_list_is_fixed(start, events, i + 1);
}

/// A repository whose archive cannot be fetched does not stop the run: the
/// failure is reported and counted, and the run goes on with the next
/// repository, or reports if that was the last one.
pub proof fn lemma_fetch_failure_goes_on(
    pre: RunView,
    answer: Result<RawResponseView, BackupErrorView>,
)
    requires
        pre.wf(),
        pre.phase == Phase::Fetching,
        zipped(pre.current(), answer) is Err,
    ensures
        ({
            let (post, outcome) = pre.step(EventView::Answered(answer));
            &&& post.repos == pre.repos
            &&& post.cursor == pre.cursor + 1
            &&& post.failed == pre.failed + 1
            &&& outcome.effects.len() == 1
            &&& outcome.effects[0] is Print
            &&& if pre.cursor + 1 < pre.repos.len() {
                &&& post.phase == Phase::Fetching
                &&& outcome.action == ActionView::Send(
                    archive_request_view(pre.token, pre.repos[pre.cursor as int + 1]),
                )
            } else {
                &&& post.phase == Phase::Reporting
                &&& outcome.action is Report
            }
        }),
{
}

/// An archive that cannot be written does not stop the run either.
pub proof fn lemma_write_failure_goes_on(pre: RunView, error: BackupErrorView)
    requires
        pre.wf(),
        pre.phase == Phase::Writing,
    ensures
        ({
            let (post, outcome) = pre.step(EventView::Written(Err(error)));
            &&& post.repos == pre.repos
            &&& post.cursor == pre.cursor + 1
            &&& post.failed == pre.failed + 1
            &&& outcome.effects.len() == 1
            &&& outcome.effects[0] is Print
            &&& if pre.cursor + 1 < pre.repos.len() {
                &&& post.phase == Phase::Fetching
                &&& outcome.action == ActionView::Send(
                    archive_request_view(pre.token, pre.repos[pre.cursor as int + 1]),
                )
            } else {
                &&& post.phase == Phase::Reporting
                &&& outcome.action is Report
            }
        }),
{
}

/// An archive that was fetched is written as it came: to the file named
/// after the repository, with the extension `.zip`, under the output
/// directory, and with the bytes of the answer's body.
pub proof fn lemma_fetched_archive_is_written_as_it_came(pre: RunView, response: RawResponseView)
    requires
        pre.wf(),
        pre.phase == Phase::Fetching,
        !is_error_status(response.status),
    ensures
        ({
            let (post, outcome) = pre.step(EventView::Answered(Ok(response)));
            &&& post == pre.in_phase(Phase::Writing)
            &&& outcome.effects.len() == 0
            &&& outcome.action == ActionView::Write {
                path: saving_path_text(pre.current().name, pre.config.output_path),
                bytes: response.body,
            }
        }),
{
}

/// An archive that was written counts as stored: the progress indicator
/// advances by one, no failure is counted, and the run goes on.
pub proof fn lemma_written_archive_advances(pre: RunView)
    requires
        pre.wf(),
        pre.phase == Phase::Writing,
    ensures
        ({
            let (post, outcome) = pre.step(EventView::Written(Ok(())));
            &&& post.repos == pre.repos
            &&& post.cursor == pre.cursor + 1
            &&& post.failed == pre.failed
            &&& outcome.effects.len() == 2
            &&& outcome.effects[0] == EffectView::Print {
                line: saved_text(saving_path_text(pre.current().name, pre.config.output_path)),
            }
            &&& outcome.effects[1] == EffectView::AdvanceProgress
        }),
{
}

/// Every repository that survives the choice is attempted exactly once, in
/// the order of the list: the requests for archives that a run has handed
/// out since its start are those of the first repositories of its list, one
/// each, as many as it has asked for so far. Once the run reports, that is
/// the whole list.
pub proof fn lemma_each_repository_is_asked_for_once(start: RunView, events: Seq<EventView>)
    requires
        start.wf(),
        start.phase.is_lookup(),
    ensures
        ({
            let end = start.after(events);
            &&& end.asked() <= end.repos.len()
            &&& start.fetches(events) == Seq::new(
                end.asked(),
                |k: int| archive_request_view(end.token, end.repos[k]),
            )
            &&& (end.phase == Phase::Reporting || end.phase == Phase::Done) ==> end.asked()
                == end.repos.len()
        }),
    decreases events.len(),
{
    let end = start.after(events);
    let asked = Seq::new(end.asked(), |k: int| archive_request_view(end.token, end.repos[k]));
    lemma_run_stays_valid(start, events);
    if events.len() == 0 {
        assert(start.fetches(events) =~= asked);
    } else {
        let front = events.drop_last();
        let before = start.after(front);
        lemma_each_repository_is_asked_for_once(start, front);
        lemma_run_stays_valid(start, front);
        assert(start.fetches(events) =~= asked);
    }
}

/// How many times `effects` advance the progress indicator.
pub open spec fn advances(effects: Seq<EffectView>) -> nat {
    effects.filter(|effect: EffectView| effect is AdvanceProgress).len()
}

/// How many times `effects` set up the progress indicator.
pub open spec fn setups(effects: Seq<EffectView>) -> nat {
    effects.filter(|effect: EffectView| effect is CreateProgress).len()
}

proof fn lemma_filter_of_none<A>(keep: spec_fn(A) -> bool)
    ensures
        Seq::<A>::empty().filter(keep).len() == 0,
{
    reveal(Seq::filter);
}

proof fn lemma_filter_of_one<A>(only: A, keep: spec_fn(A) -> bool)
    ensures
        seq![only].filter(keep).len() == if keep(only) {
            1nat
        } else {
            0nat
        },
{
    reveal(Seq::filter);
    lemma_filter_of_none(keep);
    assert(seq![only].drop_last() =~= Seq::<A>::empty());
}

proof fn lemma_filter_of_two<A>(first: A, second: A, keep: spec_fn(A) -> bool)
    ensures
        seq![first, second].filter(keep).len() == (if keep(first) {
            1nat
        } else {
            0nat
        }) + (if keep(second) {
            1nat
        } else {
            0nat
        }),
{
    reveal(Seq::filter);
    lemma_filter_of_one(first, keep);
    assert(seq![first, second].drop_last() =~= seq![first]);
}

/// What a step shows: nothing while the run is looking up the credential,
/// the account or the repositories, or is aborted. The step that completes
/// the listing sets up the progress indicator for the repositories of the
/// list and shows nothing else. A later step never sets it up again, and
/// advances it once if it stores an archive and not at all if it does not.
pub proof fn lemma_step_shows_progress(pre: RunView, event: EventView)
    requires
        pre.wf(),
    ensures
        ({
            let (post, outcome) = pre.step(event);
            if !post.phase.is_settled() {
                outcome.effects.len() == 0
            } else if pre.phase.is_settled() {
                &&& setups(outcome.effects) == 0
                &&& advances(outcome.effects) + post.failed - pre.failed == post.cursor - pre.cursor
            } else {
                &&& outcome.effects == seq![EffectView::CreateProgress { total: post.repos.len() }]
                &&& setups(outcome.effects) == 1
                &&& advances(outcome.effects) == 0
                &&& post.cursor == 0
                &&& post.failed == 0
            }
        }),
{
    let (post, outcome) = pre.step(event);
    let effects = outcome.effects;
    let advance = |effect: EffectView| effect is AdvanceProgress;
    let setup = |effect: EffectView| effect is CreateProgress;
    assert(effects.len() <= 2);
    if effects.len() == 0 {
        assert(effects =~= Seq::empty());
        lemma_filter_of_none(advance);
        lemma_filter_of_none(setup);
    } else if effects.len() == 1 {
        assert(effects =~= seq![effects[0]]);
        lemma_filter_of_one(effects[0], advance);
        lemma_filter_of_one(effects[0], setup);
    } else {
        assert(effects =~= seq![effects[0], effects[1]]);
        lemma_filter_of_two(effects[0], effects[1], advance);
        lemma_filter_of_two(effects[0], effects[1], setup);
    }
}

/// The progress indicator shows the archives that were stored: it is set up
/// once, when the list of repositories stands and before anything else is
/// shown, for as many repositories as the list holds, and it has advanced
/// once for each repository that was attempted and did not fail. Before the
/// list stands, and in a run that aborted, nothing was shown at all.
pub proof fn lemma_progress_counts_stored_archives(start: RunView, events: Seq<EventView>)
    requires
        start.wf(),
        start.phase.is_lookup(),
    ensures
        ({
            let end = start.after(events);
            let shown = start.shown(events);
            &&& advances(shown) + end.failed == end.cursor
            &&& if end.phase.is_settled() {
                &&& setups(shown) == 1
                &&& shown.len() > 0
                &&& shown[0] == EffectView::CreateProgress { total: end.repos.len() }
            } else {
                shown.len() == 0
            }
        }),
    decreases events.len(),
{
    let advance = |effect: EffectView| effect is AdvanceProgress;
    let setup = |effect: EffectView| effect is CreateProgress;
    lemma_run_stays_valid(start, events);
    if events.len() == 0 {
        lemma_filter_of_none(advance);
        assert(start.shown(events) =~= Seq::empty());
    } else {
        let front = events.drop_last();
        let before = start.after(front);
        let so_far = start.shown(front);
        let new = before.step(events.last()).1.effects;
        lemma_progress_counts_stored_archives(start, front);
        lemma_run_stays_valid(start, front);
        lemma_step_shows_progress(before, events.last());
        if before.phase.is_settled() {
            lemma_step_keeps_settled_list(before, events.last());
        }
        Seq::filter_distributes_over_add(so_far, new, advance);
        Seq::filter_distributes_over_add(so_far, new, setup);
        assert(start.shown(events) == so_far + new);
        if so_far.len() == 0 {
            assert(so_far + new =~= new);
        }
    }
}

/// A step that leaves the run looking up the credential, the account or the
/// repositories, or aborted, is quiet.
pub proof fn lemma_lookup_step_is_quiet(pre: RunView, event: EventView)
    requires
        pre.phase.is_lookup() || pre.phase == Phase::Aborted,
    ensures
        ({
            let (post, outcome) = pre.step(event);
            post.phase.is_lookup() || post.phase == Phase::Aborted ==> is_quiet(outcome)
        }),
{
}

/// The error that `event` reports to a run in the phase `phase`, if the run
/// is looking up the credential, the account or the repositories and the
/// event says that this failed: the credential is missing, the request got
/// no answer, the answer has an error status, or the document cannot be
/// decoded.
pub open spec fn lookup_failure(phase: Phase, event: EventView) -> Option<BackupErrorView> {
    match (phase, event) {
        (Phase::Authenticating, EventView::Credential(value)) => match resolved_token(value) {
            Err(error) => Some(error),
            Ok(_) => None,
        },
        (Phase::Identifying, EventView::Answered(answer)) | (
            Phase::Listing,
            EventView::Answered(answer),
        ) => match answer {
            Err(error) => Some(error),
            Ok(response) => match accepted(response) {
                Err(error) => Some(error),
                Ok(_) => None,
            },
        },
        (Phase::DecodingOwner, EventView::OwnerDecoded(Err(error))) => Some(error),
        (Phase::DecodingRepositories, EventView::PageDecoded(Err(error))) => Some(error),
        _ => None,
    }
}

/// A failure while the credential, the account or the repositories are
/// looked up aborts the run with the error of the failure, and nothing is
/// shown.
pub proof fn lemma_lookup_failure_aborts(pre: RunView, event: EventView)
    requires
        lookup_failure(pre.phase, event) is Some,
    ensures
        ({
            let (post, outcome) = pre.step(event);
            &&& post == pre.in_phase(Phase::Aborted)
            &&& outcome.action == ActionView::Abort(lookup_failure(pre.phase, event)->Some_0)
            &&& outcome.effects.len() == 0
        }),
{
}

/// A run that has aborted stays aborted and asks for nothing more.
pub proof fn lemma_aborted_run_is_over(pre: RunView, event: EventView)
    requires
        pre.phase == Phase::Aborted,
    ensures
        pre.step(event).0 == pre,
        pre.step(event).1.action == ActionView::Nothing,
        pre.step(event).1.effects.len() == 0,
{
}

/// A run that ends aborted has, from its start, asked for no archive to be
/// written and set up no progress indicator.
pub proof fn lemma_aborted_run_was_quiet(start: RunView, events: Seq<EventView>, i: int)
    requires
        start.after(events).phase.is_lookup() || start.after(events).phase == Phase::Aborted,
        0 <= i < events.len(),
    ensures
        is_quiet(start.outcome_at(events, i)),
    decreases events.len(),
{
    let front = events.drop_last();
    let before = start.after(front);
    if before.phase.is_settled() {
        lemma_step_keeps_settled_list(before, events.last());
    }
    if i == events.len() - 1 {
        assert(events.take(i) =~= front);
        lemma_lookup_step_is_quiet(before, events.last());
    } else {
        assert(front.take(i) =~= events.take(i));
        lemma_aborted_run_was_quiet(start, front, i);
    }
}

} // verus!
