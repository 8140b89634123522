//! The course of a run, as a transition function on plain values.
//!
//! A run is in one of a few phases. Each event that its driver reports moves
//! it on: while the credential, the account and its repositories are looked
//! up, any error aborts the run. Once the list of repositories stands, each
//! repository is fetched and written in turn, an error on the way is reported
//! and counted, and the run goes on with the next repository until it can
//! report.

use crate::archive::{saving_path_text, zipped};
use crate::config::{resolved_token, token_variable_name, CliView};
use crate::error::BackupErrorView;
use crate::events::{ActionView, BackupSummaryView, EffectView, EventView, OutcomeView};
use crate::repository::{selected, OwnerView, RepositoryView};
use crate::request::{
    accepted, archive_request_view, owner_request_view, repos_request_view, ApiRequestView,
    MAX_PAGES, PAGE_SIZE,
};
use crate::text::{failure_text, saved_text, summary_text};
use vstd::prelude::*;

verus! {

/// Where a run stands.
#[derive(Debug, Clone, Copy, PartialEq, Eq, Structural)]
pub enum Phase {
    /// Nothing was asked for yet.
    Idle,
    /// The credential was asked for.
    Authenticating,
    /// The account of the credential was asked for.
    Identifying,
    /// The answer that names the account is being decoded.
    DecodingOwner,
    /// A page of the listing was asked for.
    Listing,
    /// A page of the listing is being decoded.
    DecodingRepositories,
    /// The archive of the current repository was asked for.
    Fetching,
    /// The archive of the current repository is being written.
    Writing,
    /// Every repository was attempted and the report was handed out.
    Reporting,
    /// The report was shown.
    Done,
    /// The run failed before it could back up anything.
    Aborted,
}

/// The state of a run.
pub struct RunView {
    /// The settings of the run.
    pub config: CliView,
    /// The credential, empty until it is resolved.
    pub token: Seq<char>,
    /// Where the run stands.
    pub phase: Phase,
    /// The account, once it is known.
    pub owner: Option<OwnerView>,
    /// How many pages of the listing were decoded.
    pub pages: nat,
    /// What the pages decoded so far hold, in the order in which they came.
    pub listed: Seq<RepositoryView>,
    /// The repositories to back up. Empty until the listing is complete.
    pub repos: Seq<RepositoryView>,
    /// How many repositories were attempted. While one is fetched or
    /// written, it is the one at this position.
    pub cursor: nat,
    /// How many of the repositories attempted could not be backed up.
    pub failed: nat,
}

impl RunView {
    /// The state of a run that has not started. `owner` is the account where
    /// it is known beforehand. Else the run asks the platform for it.
    pub open spec fn initial(config: CliView, owner: Option<OwnerView>) -> RunView {
        RunView {
            config,
            token: Seq::empty(),
            phase: Phase::Idle,
            owner,
            pages: 0,
            listed: Seq::empty(),
            repos: Seq::empty(),
            cursor: 0,
            failed: 0,
        }
    }

    /// The same state in another phase.
    pub open spec fn in_phase(self, phase: Phase) -> RunView {
        RunView { phase, ..self }
    }

    /// What holds of every state that a run can be in.
    pub open spec fn wf(self) -> bool {
        &&& self.failed <= self.cursor <= self.repos.len()
        &&& match self.phase {
            Phase::Idle | Phase::Authenticating | Phase::Identifying | Phase::DecodingOwner => {
                &&& self.pages == 0
                &&& self.listed.len() == 0
                &&& self.repos.len() == 0
            },
            Phase::Listing | Phase::DecodingRepositories => {
                &&& self.owner is Some
                &&& self.pages < MAX_PAGES
                &&& self.repos.len() == 0
            },
            Phase::Fetching | Phase::Writing => self.cursor < self.repos.len(),
            Phase::Reporting | Phase::Done => self.cursor == self.repos.len(),
            Phase::Aborted => self.repos.len() == 0,
        }
    }

    /// How many repositories the run set out to back up.
    pub open spec fn total(self) -> nat {
        self.repos.len()
    }

    /// The counts of the run as they stand.
    pub open spec fn summary(self) -> BackupSummaryView {
        BackupSummaryView { total: self.total(), failed: self.failed }
    }

    /// The login of the account, empty while it is not known.
    pub open spec fn login(self) -> Seq<char> {
        match self.owner {
            Some(owner) => owner.login,
            None => Seq::empty(),
        }
    }

    /// The repository that is being fetched or written.
    pub open spec fn current(self) -> RepositoryView
        recommends
            self.cursor < self.repos.len(),
    {
        self.repos[self.cursor as int]
    }

    /// Where the archive of the current repository is stored.
    pub open spec fn current_path(self) -> Seq<char> {
        saving_path_text(self.current().name, self.config.output_path)
    }

    /// The run stays as it is and asks for nothing.
    pub open spec fn ignore(self) -> (RunView, OutcomeView) {
        self.ask(self.phase, ActionView::Nothing)
    }

    /// The run enters `phase` and asks for `action`. Nothing is shown.
    pub open spec fn ask(self, phase: Phase, action: ActionView) -> (RunView, OutcomeView) {
        (self.in_phase(phase), OutcomeView { effects: Seq::empty(), action })
    }

    /// The run gives up with `error`. Nothing is shown.
    pub open spec fn abort(self, error: BackupErrorView) -> (RunView, OutcomeView) {
        self.ask(Phase::Aborted, ActionView::Abort(error))
    }

    /// The run looks up the account and its repositories: it asks for the
    /// first page of the listing where the account is known, else for the
    /// account.
    pub open spec fn look_up(self) -> (RunView, OutcomeView) {
        match self.owner {
            Some(_) => self.list_next_page(),
            None => self.ask(Phase::Identifying, ActionView::Send(owner_request_view(self.token))),
        }
    }

    /// The run asks for page `pages + 1` of the listing.
    pub open spec fn list_next_page(self) -> (RunView, OutcomeView) {
        self.ask(
            Phase::Listing,
            ActionView::Send(repos_request_view(self.token, self.login(), self.pages + 1)),
        )
    }

    /// The run shows `effects` and goes on at the cursor: it asks for the
    /// archive of the repository there, or reports when none is left.
    pub open spec fn proceed(self, effects: Seq<EffectView>) -> (RunView, OutcomeView) {
        if self.cursor < self.repos.len() {
            (
                RunView { phase: Phase::Fetching, ..self },
                OutcomeView {
                    effects,
                    action: ActionView::Send(archive_request_view(self.token, self.current())),
                },
            )
        } else {
            (
                RunView { phase: Phase::Reporting, ..self },
                OutcomeView {
                    effects,
                    action: ActionView::Report {
                        summary: self.summary(),
                        message: summary_text((self.total() - self.failed) as nat, self.failed),
                    },
                },
            )
        }
    }

    /// The current repository could not be backed up because of `error`: the
    /// run says so, counts it and goes on with the next one.
    pub open spec fn fail_current(self, error: BackupErrorView) -> (RunView, OutcomeView) {
        RunView { cursor: self.cursor + 1, failed: self.failed + 1, ..self }.proceed(
            seq![EffectView::Print { line: failure_text(self.current().name, error.message()) }],
        )
    }

    /// The archive of the current repository was stored: the run says so,
    /// advances the progress indicator and goes on with the next one.
    pub open spec fn finish_current(self) -> (RunView, OutcomeView) {
        RunView { cursor: self.cursor + 1, ..self }.proceed(
            seq![
                EffectView::Print { line: saved_text(self.current_path()) },
                EffectView::AdvanceProgress,
            ],
        )
    }

    /// The listing is complete after the page `page`, or goes on with the next page.
    pub open spec fn take_page(self, page: Seq<RepositoryView>) -> (RunView, OutcomeView) {
        let listed = self.listed + page;
        let pages = self.pages + 1;
        if page.len() >= PAGE_SIZE && pages < MAX_PAGES {
            RunView { listed, pages, ..self }.list_next_page()
        } else {
            let repos = selected(self.config.allow_others_repos, listed, self.login());
            RunView { listed: Seq::empty(), pages, repos, cursor: 0, failed: 0, ..self }.proceed(
                seq![EffectView::CreateProgress { total: repos.len() }],
            )
        }
    }

    /// The state after `event` and what the driver is to do then. An event
    /// that the run does not await in its phase changes nothing.
    pub open spec fn step(self, event: EventView) -> (RunView, OutcomeView) {
        match (self.phase, event) {
            (Phase::Idle, EventView::Started) => self.ask(
                Phase::Authenticating,
                ActionView::ReadCredential { variable: token_variable_name() },
            ),
            (Phase::Authenticating, EventView::Credential(value)) => match resolved_token(value) {
                Err(error) => self.abort(error),
                Ok(token) => RunView { token, ..self }.look_up(),
            },
            (Phase::Identifying, EventView::Answered(Err(error))) => self.abort(error),
            (Phase::Identifying, EventView::Answered(Ok(response))) => match accepted(response) {
                Err(error) => self.abort(error),
                Ok(document) => self.ask(Phase::DecodingOwner, ActionView::DecodeOwner(document)),
            },
            (Phase::DecodingOwner, EventView::OwnerDecoded(Err(error))) => self.abort(error),
            (Phase::DecodingOwner, EventView::OwnerDecoded(Ok(owner))) => RunView {
                owner: Some(owner),
                ..self
            }.list_next_page(),
            (Phase::Listing, EventView::Answered(Err(error))) => self.abort(error),
            (Phase::Listing, EventView::Answered(Ok(response))) => match accepted(response) {
                Err(error) => self.abort(error),
                Ok(document) => self.ask(
                    Phase::DecodingRepositories,
                    ActionView::DecodeRepositories(document),
                ),
            },
            (Phase::DecodingRepositories, EventView::PageDecoded(Err(error))) => self.abort(error),
            (Phase::DecodingRepositories, EventView::PageDecoded(Ok(page))) => self.take_page(page),
            (Phase::Fetching, EventView::Answered(answer)) => match zipped(self.current(), answer) {
                Err(error) => self.fail_current(error),
                Ok(archive) => self.ask(
                    Phase::Writing,
                    ActionView::Write {
                        path: saving_path_text(archive.name, self.config.output_path),
                        bytes: archive.zip,
                    },
                ),
            },
            (Phase::Writing, EventView::Written(Err(error))) => self.fail_current(error),
            (Phase::Writing, EventView::Written(Ok(_))) => self.finish_current(),
            (Phase::Reporting, EventView::Reported) => self.ask(Phase::Done, ActionView::Nothing),
            _ => self.ignore(),
        }
    }

    /// The state after the events `events`, one after the other.
    pub open spec fn after(self, events: Seq<EventView>) -> RunView
        decreases events.len(),
    {
        if events.len() == 0 {
            self
        } else {
            self.after(events.drop_last()).step(events.last()).0
        }
    }

    /// The requests for archives that the driver was handed in answer to
    /// `events`, in the order in which they were handed out.
    pub open spec fn fetches(self, events: Seq<EventView>) -> Seq<ApiRequestView>
        decreases events.len(),
    {
        if events.len() == 0 {
            Seq::empty()
        } else {
            let so_far = self.fetches(events.drop_last());
            let (post, outcome) = self.after(events.drop_last()).step(events.last());
            if post.phase == Phase::Fetching && outcome.action is Send {
                so_far.push(outcome.action->Send_0)
            } else {
                so_far
            }
        }
    }

    /// The effects that the driver was handed in answer to `events`, in the
    /// order in which it is to show them.
    pub open spec fn shown(self, events: Seq<EventView>) -> Seq<EffectView>
        decreases events.len(),
    {
        if events.len() == 0 {
            Seq::empty()
        } else {
            self.shown(events.drop_last()) + self.after(events.drop_last()).step(
                events.last(),
            ).1.effects
        }
    }

    /// How many repositories the run has asked the archive of.
    pub open spec fn asked(self) -> nat {
        if self.phase == Phase::Fetching || self.phase == Phase::Writing {
            self.cursor + 1
        } else {
            self.cursor
        }
    }

    /// What the driver was handed in answer to the event `events[i]`.
    pub open spec fn outcome_at(self, events: Seq<EventView>, i: int) -> OutcomeView
        recommends
            0 <= i < events.len(),
    {
        self.after(events.take(i)).step(events[i]).1
    }
}

impl Phase {
    /// Whether the run is still looking up the credential, the account and
    /// its repositories.
    pub open spec fn is_lookup(self) -> bool {
        self == Phase::Idle || self == Phase::Authenticating || self == Phase::Identifying || self
            == Phase::DecodingOwner || self == Phase::Listing || self
            == Phase::DecodingRepositories
    }

    /// Whether the list of repositories stands: the run works on them or is
    /// through with them.
    pub open spec fn is_settled(self) -> bool {
        self == Phase::Fetching || self == Phase::Writing || self == Phase::Reporting || self
            == Phase::Done
    }
}

} // verus!
