//! A run of the backup: the state that its driver carries from event to event.

use crate::archive::{get_zipped_repo, saving_path};
use crate::config::{get_api_token, token_variable, Cli};
use crate::error::{lemma_bytes_view, BackupError};
use crate::events::{Action, BackupSummary, Effect, EffectView, Event, Outcome};
use crate::model::{Phase, RunView};
use crate::repository::{get_owner_repos, Owner, Repository};
use crate::request::{
    accept_response, archive_request, owner_request, repos_request, MAX_PAGES, PAGE_SIZE,
};
use crate::text::{failure_line, failure_text, saved_line, saved_text, summary_message};
use vstd::prelude::*;
use vstd::string::StringExecFns;

verus! {

/// A run of the backup.
///
/// The driver makes one with [`BackupRun::new`], reports [`Event::Started`]
/// and from then on performs the action that each step hands out and reports
/// how it went, until the action is [`Action::Nothing`] or [`Action::Abort`].
pub struct BackupRun {
    config: Cli,
    token: String,
    phase: Phase,
    owner: Option<Owner>,
    pages: u64,
    listed: Vec<Repository>,
    repos: Vec<Repository>,
    cursor: usize,
    failed: usize,
}

impl View for BackupRun {
    type V = RunView;

    closed spec fn view(&self) -> RunView {
        RunView {
            config: self.config@,
            token: self.token@,
            phase: self.phase,
            owner: self.owner.deep_view(),
            pages: self.pages as nat,
            listed: self.listed.deep_view(),
            repos: self.repos.deep_view(),
            cursor: self.cursor as nat,
            failed: self.failed as nat,
        }
    }
}

impl BackupRun {
    #[verifier::type_invariant]
    spec fn valid(&self) -> bool {
        self@.wf()
    }

    /// A run that has not started. `owner` names the account where it is
    /// known beforehand. Without it the run asks the platform whose the
    /// credential is.
    pub fn new(config: Cli, owner: Option<Owner>) -> (run: BackupRun)
        ensures
            run@ == RunView::initial(config@, owner.deep_view()),
            run@.wf(),
    {
        let run = BackupRun {
            config,
            token: String::new(),
            phase: Phase::Idle,
            owner,
            pages: 0,
            listed: Vec::new(),
            repos: Vec::new(),
            cursor: 0,
            failed: 0,
        };
        assert(run@.listed =~= Seq::empty());
        assert(run@.repos =~= Seq::empty());
        run
    }

    /// Where the run stands.
    pub fn phase(&self) -> (phase: Phase)
        ensures
            phase == self@.phase,
    {
        self.phase
    }

    /// Whether nothing is left to do: the report was shown, or the run gave up.
    pub fn is_over(&self) -> (over: bool)
        ensures
            over == (self@.phase == Phase::Done || self@.phase == Phase::Aborted),
    {
        match self.phase {
            Phase::Done => true,
            Phase::Aborted => true,
            _ => false,
        }
    }

    /// The counts of the run as they stand: how many repositories it set out
    /// to back up, none before the listing is complete, and how many of them
    /// it could not back up.
    pub fn summary(&self) -> (summary: BackupSummary)
        ensures
            summary@ == self@.summary(),
            summary@.failed <= summary@.total,
    {
        proof {
            use_type_invariant(self);
        }
        BackupSummary { total: self.repos.len() as u64, failed: self.failed as u64 }
    }

    fn account(&self) -> (owner: Owner)
        ensures
            owner@.login == self@.login(),
    {
        match &self.owner {
            Some(owner) => owner.clone(),
            None => Owner { login: String::new() },
        }
    }

    fn ask(self, phase: Phase, action: Action) -> (next: (BackupRun, Outcome))
        requires
            self@.in_phase(phase).wf(),
        ensures
            (next.0@, next.1@) == self@.ask(phase, action@),
    {
        let outcome = Outcome { effects: Vec::new(), action };
        assert(outcome@.effects =~= Seq::empty());
        (BackupRun { phase, ..self }, outcome)
    }

    fn ignore(self) -> (next: (BackupRun, Outcome))
        ensures
            (next.0@, next.1@) == self@.ignore(),
    {
        proof {
            use_type_invariant(&self);
        }
        let phase = self.phase;
        self.ask(phase, Action::Nothing)
    }

    fn abort(self, error: BackupError) -> (next: (BackupRun, Outcome))
        requires
            self@.repos.len() == 0,
        ensures
            (next.0@, next.1@) == self@.abort(error@),
    {
        proof {
            use_type_invariant(&self);
        }
        self.ask(Phase::Aborted, Action::Abort(error))
    }

    fn look_up(self) -> (next: (BackupRun, Outcome))
        requires
            self@.pages == 0,
            self@.repos.len() == 0,
            self@.listed.len() == 0,
        ensures
            (next.0@, next.1@) == self@.look_up(),
    {
        proof {
            use_type_invariant(&self);
        }
        if self.owner.is_some() {
            self.list_next_page()
        } else {
            let request = owner_request(self.token.as_str());
            self.ask(Phase::Identifying, Action::Send(request))
        }
    }

    fn list_next_page(self) -> (next: (BackupRun, Outcome))
        requires
            self@.owner is Some,
            self@.pages < MAX_PAGES,
            self@.repos.len() == 0,
        ensures
            (next.0@, next.1@) == self@.list_next_page(),
    {
        proof {
            use_type_invariant(&self);
        }
        let request = repos_request(self.token.as_str(), &self.account(), self.pages + 1);
        self.ask(Phase::Listing, Action::Send(request))
    }

    fn proceed(
        config: Cli,
        token: String,
        phase: Phase,
        owner: Option<Owner>,
        pages: u64,
        listed: Vec<Repository>,
        repos: Vec<Repository>,
        cursor: usize,
        failed: usize,
        effects: Vec<Effect>,
    ) -> (next: (BackupRun, Outcome))
        requires
            failed <= cursor <= repos.len(),
        ensures
            (next.0@, next.1@) == (RunView {
                config: config@,
                token: token@,
                phase,
                owner: owner.deep_view(),
                pages: pages as nat,
                listed: listed.deep_view(),
                repos: repos.deep_view(),
                cursor: cursor as nat,
                failed: failed as nat,
            }).proceed(effects.deep_view()),
    {
        if cursor < repos.len() {
            let request = archive_request(token.as_str(), &repos[cursor]);
            let outcome = Outcome { effects, action: Action::Send(request) };
            let run = BackupRun {
                config,
                token,
                phase: Phase::Fetching,
                owner,
                pages,
                listed,
                repos,
                cursor,
                failed,
            };
            (run, outcome)
        } else {
            let total = repos.len();
            let summary = BackupSummary { total: total as u64, failed: failed as u64 };
            let message = summary_message((total - failed) as u64, failed as u64);
            let outcome = Outcome { effects, action: Action::Report { summary, message } };
            let run = BackupRun {
                config,
                token,
                phase: Phase::Reporting,
                owner,
                pages,
                listed,
                repos,
                cursor,
                failed,
            };
            (run, outcome)
        }
    }

    fn fail_current(self, error: BackupError) -> (next: (BackupRun, Outcome))
        requires
            self@.cursor < self@.repos.len(),
        ensures
            (next.0@, next.1@) == self@.fail_current(error@),
    {
        proof {
            use_type_invariant(&self);
            assert(self.repos.deep_view().len() == self.repos.len());
        }
        let attempted = self.cursor + 1;
        let line = failure_line(self.repos[self.cursor].name.as_str(), error.message().as_str());
        let mut effects: Vec<Effect> = Vec::new();
        effects.push(Effect::Print { line });
        assert(effects.deep_view() =~= seq![
            EffectView::Print {
                line: failure_text(self@.current().name, error@.message()),
            },
        ]);
        BackupRun::proceed(
            self.config,
            self.token,
            self.phase,
            self.owner,
            self.pages,
            self.listed,
            self.repos,
            attempted,
            self.failed + 1,
            effects,
        )
    }

    fn finish_current(self) -> (next: (BackupRun, Outcome))
        requires
            self@.cursor < self@.repos.len(),
        ensures
            (next.0@, next.1@) == self@.finish_current(),
    {
        proof {
            use_type_invariant(&self);
            assert(self.repos.deep_view().len() == self.repos.len());
        }
        let attempted = self.cursor + 1;
        let path = saving_path(
            self.repos[self.cursor].name.as_str(),
            self.config.output_path.as_str(),
        );
        let mut effects: Vec<Effect> = Vec::new();
        effects.push(Effect::Print { line: saved_line(path.as_str()) });
        effects.push(Effect::AdvanceProgress);
        assert(effects.deep_view() =~= seq![
            EffectView::Print {
                line: saved_text(self@.current_path()),
            },
            EffectView::AdvanceProgress,
        ]);
        BackupRun::proceed(
            self.config,
            self.token,
            self.phase,
            self.owner,
            self.pages,
            self.listed,
            self.repos,
            attempted,
            self.failed,
            effects,
        )
    }

    fn take_page(self, page: Vec<Repository>) -> (next: (BackupRun, Outcome))
        requires
            self@.phase == Phase::DecodingRepositories,
        ensures
            (next.0@, next.1@) == self@.take_page(page.deep_view()),
    {
        proof {
            use_type_invariant(&self);
        }
        let full = page.len() >= PAGE_SIZE;
        let pages = self.pages + 1;
        let account = self.account();
        let mut listed = self.listed;
        let mut page = page;
        let ghost before = listed.deep_view();
        let ghost added = page.deep_view();
        listed.append(&mut page);
        assert(listed.deep_view() =~= before + added);
        if full && pages < MAX_PAGES {
            let run = BackupRun {
                config: self.config,
                token: self.token,
                phase: self.phase,
                owner: self.owner,
                pages,
                listed,
                repos: self.repos,
                cursor: self.cursor,
                failed: self.failed,
            };
            run.list_next_page()
        } else {
            let repos = get_owner_repos(self.config.allow_others_repos, account, listed);
            let mut effects: Vec<Effect> = Vec::new();
            effects.push(Effect::CreateProgress { total: repos.len() as u64 });
            assert(effects.deep_view() =~= seq![
                EffectView::CreateProgress { total: repos.deep_view().len() },
            ]);
            let emptied: Vec<Repository> = Vec::new();
            assert(emptied.deep_view() =~= Seq::empty());
            BackupRun::proceed(
                self.config,
                self.token,
                self.phase,
                self.owner,
                pages,
                emptied,
                repos,
                0,
                0,
                effects,
            )
        }
    }

    /// Moves the run on by `event` and says what the driver is to show and
    /// to do next. An event that the run does not await changes nothing and
    /// asks for nothing.
    pub fn step(self, event: Event) -> (next: (BackupRun, Outcome))
        ensures
            (next.0@, next.1@) == self@.step(event@),
            next.0@.wf(),
    {
        proof {
            use_type_invariant(&self);
        }
        let next = match self.phase {
            Phase::Idle => match event {
                Event::Started => {
                    let variable = String::from_str(token_variable());
                    self.ask(Phase::Authenticating, Action::ReadCredential { variable })
                },
                _ => self.ignore(),
            },
            Phase::Authenticating => match event {
                Event::Credential(value) => match get_api_token(value) {
                    Err(error) => self.abort(error),
                    Ok(token) => {
                        let run = BackupRun { token, ..self };
                        run.look_up()
                    },
                },
                _ => self.ignore(),
            },
            Phase::Identifying => match event {
                Event::Answered(Err(error)) => self.abort(error),
                Event::Answered(Ok(response)) => match accept_response(response) {
                    Err(error) => self.abort(error),
                    Ok(document) => {
                        proof {
                            lemma_bytes_view(document);
                        }
                        self.ask(Phase::DecodingOwner, Action::DecodeOwner(document))
                    },
                },
                _ => self.ignore(),
            },
            Phase::DecodingOwner => match event {
                Event::OwnerDecoded(Err(error)) => self.abort(error),
                Event::OwnerDecoded(Ok(owner)) => {
                    let run = BackupRun { owner: Some(owner), ..self };
                    run.list_next_page()
                },
                _ => self.ignore(),
            },
            Phase::Listing => match event {
                Event::Answered(Err(error)) => self.abort(error),
                Event::Answered(Ok(response)) => match accept_response(response) {
                    Err(error) => self.abort(error),
                    Ok(document) => {
                        proof {
                            lemma_bytes_view(document);
                        }
                        self.ask(
                            Phase::DecodingRepositories,
                            Action::DecodeRepositories(document),
                        )
                    },
                },
                _ => self.ignore(),
            },
            Phase::DecodingRepositories => match event {
                Event::PageDecoded(Err(error)) => self.abort(error),
                Event::PageDecoded(Ok(page)) => self.take_page(page),
                _ => self.ignore(),
            },
            Phase::Fetching => match event {
                Event::Answered(answer) => match get_zipped_repo(&self.repos[self.cursor], answer) {
                    Err(error) => self.fail_current(error),
                    Ok(archive) => {
                        let path = saving_path(
                            archive.name.as_str(),
                            self.config.output_path.as_str(),
                        );
                        self.ask(Phase::Writing, Action::Write { path, bytes: archive.zip })
                    },
                },
                _ => self.ignore(),
            },
            Phase::Writing => match event {
                Event::Written(Err(error)) => self.fail_current(error),
                Event::Written(Ok(_)) => self.finish_current(),
                _ => self.ignore(),
            },
            Phase::Reporting => match event {
                Event::Reported => self.ask(Phase::Done, Action::Nothing),
                _ => self.ignore(),
            },
            Phase::Done => self.ignore(),
            Phase::Aborted => self.ignore(),
        };
        proof {
            use_type_invariant(&next.0);
        }
        next
    }
}

} // verus!
