//! What a run and its driver tell each other.
//!
//! A run never touches the network or the disk. It hands its driver an
//! [`Action`], the driver performs it and answers with the [`Event`] that
//! says how it went. Along with an action the run hands out [`Effect`]s:
//! what the user is to see before the action is performed.

use crate::error::{result_view, BackupError, BackupErrorView};
use crate::repository::{Owner, OwnerView, Repository, RepositoryView};
use crate::request::{ApiRequest, ApiRequestView, RawResponse, RawResponseView};
use vstd::prelude::*;

verus! {

/// The counts that a run reports: how many repositories it set out to back
/// up and how many of them it could not.
#[derive(Debug, Clone, Copy, PartialEq, Eq, Structural)]
pub struct BackupSummary {
    pub total: u64,
    pub failed: u64,
}

/// What a [`BackupSummary`] stands for in contracts.
pub struct BackupSummaryView {
    pub total: nat,
    pub failed: nat,
}

impl View for BackupSummary {
    type V = BackupSummaryView;

    open spec fn view(&self) -> BackupSummaryView {
        BackupSummaryView { total: self.total as nat, failed: self.failed as nat }
    }
}

impl DeepView for BackupSummary {
    type V = BackupSummaryView;

    open spec fn deep_view(&self) -> BackupSummaryView {
        self@
    }
}

/// How the action that a run asked for went.
#[derive(Debug, PartialEq, Eq)]
pub enum Event {
    /// The driver is ready for the first action.
    Started,
    /// The variable of [`Action::ReadCredential`] was looked up: its value,
    /// or `None` where the environment does not hold it.
    Credential(Option<String>),
    /// The request of [`Action::Send`] was answered, or could not be made.
    Answered(Result<RawResponse, BackupError>),
    /// The document of [`Action::DecodeOwner`] was decoded, or is malformed.
    OwnerDecoded(Result<Owner, BackupError>),
    /// The document of [`Action::DecodeRepositories`] was decoded, or is malformed.
    PageDecoded(Result<Vec<Repository>, BackupError>),
    /// The archive of [`Action::Write`] was written, or could not be.
    Written(Result<(), BackupError>),
    /// The report of [`Action::Report`] was shown.
    Reported,
}

/// What an [`Event`] stands for in contracts.
pub enum EventView {
    Started,
    Credential(Option<Seq<char>>),
    Answered(Result<RawResponseView, BackupErrorView>),
    OwnerDecoded(Result<OwnerView, BackupErrorView>),
    PageDecoded(Result<Seq<RepositoryView>, BackupErrorView>),
    Written(Result<(), BackupErrorView>),
    Reported,
}

impl View for Event {
    type V = EventView;

    open spec fn view(&self) -> EventView {
        match self {
            Event::Started => EventView::Started,
            Event::Credential(value) => EventView::Credential(value.deep_view()),
            Event::Answered(answer) => EventView::Answered(result_view(*answer)),
            Event::OwnerDecoded(owner) => EventView::OwnerDecoded(result_view(*owner)),
            Event::PageDecoded(page) => EventView::PageDecoded(result_view(*page)),
            Event::Written(written) => EventView::Written(result_view(*written)),
            Event::Reported => EventView::Reported,
        }
    }
}

/// What the driver of a run does next.
#[derive(Debug, PartialEq, Eq)]
pub enum Action {
    /// Look up the environment variable of this name, after loading the
    /// local environment file if there is one, and answer with
    /// [`Event::Credential`].
    ReadCredential { variable: String },
    /// Send the request and answer with [`Event::Answered`].
    Send(ApiRequest),
    /// Decode the document as an account and answer with [`Event::OwnerDecoded`].
    DecodeOwner(Vec<u8>),
    /// Decode the document as a list of repositories and answer with
    /// [`Event::PageDecoded`].
    DecodeRepositories(Vec<u8>),
    /// Write the bytes to the file at the path, replacing what is there, and
    /// answer with [`Event::Written`].
    Write { path: String, bytes: Vec<u8> },
    /// Show the closing message and answer with [`Event::Reported`].
    Report { summary: BackupSummary, message: String },
    /// Give up: the run failed with this error before it backed up anything.
    Abort(BackupError),
    /// Nothing is left to do, or the event was not the one awaited.
    Nothing,
}

/// What an [`Action`] stands for in contracts.
pub enum ActionView {
    ReadCredential { variable: Seq<char> },
    Send(ApiRequestView),
    DecodeOwner(Seq<u8>),
    DecodeRepositories(Seq<u8>),
    Write { path: Seq<char>, bytes: Seq<u8> },
    Report { summary: BackupSummaryView, message: Seq<char> },
    Abort(BackupErrorView),
    Nothing,
}

impl View for Action {
    type V = ActionView;

    open spec fn view(&self) -> ActionView {
        match self {
            Action::ReadCredential { variable } => ActionView::ReadCredential {
                variable: variable@,
            },
            Action::Send(request) => ActionView::Send(request@),
            Action::DecodeOwner(document) => ActionView::DecodeOwner(document@),
            Action::DecodeRepositories(document) => ActionView::DecodeRepositories(document@),
            Action::Write { path, bytes } => ActionView::Write { path: path@, bytes: bytes@ },
            Action::Report { summary, message } => ActionView::Report {
                summary: summary@,
                message: message@,
            },
            Action::Abort(error) => ActionView::Abort(error@),
            Action::Nothing => ActionView::Nothing,
        }
    }
}

/// Something that the user is to see.
#[derive(Debug, PartialEq, Eq)]
pub enum Effect {
    /// Set up the progress indicator for `total` repositories.
    CreateProgress { total: u64 },
    /// Advance the progress indicator by one repository.
    AdvanceProgress,
    /// Print the line.
    Print { line: String },
}

/// What an [`Effect`] stands for in contracts.
pub enum EffectView {
    CreateProgress { total: nat },
    AdvanceProgress,
    Print { line: Seq<char> },
}

impl View for Effect {
    type V = EffectView;

    open spec fn view(&self) -> EffectView {
        match self {
            Effect::CreateProgress { total } => EffectView::CreateProgress { total: *total as nat },
            Effect::AdvanceProgress => EffectView::AdvanceProgress,
            Effect::Print { line } => EffectView::Print { line: line@ },
        }
    }
}

impl DeepView for Effect {
    type V = EffectView;

    open spec fn deep_view(&self) -> EffectView {
        self@
    }
}

/// What a run hands its driver at each step: the effects to show, in order,
/// and then the action to perform.
#[derive(Debug, PartialEq, Eq)]
pub struct Outcome {
    pub effects: Vec<Effect>,
    pub action: Action,
}

/// What an [`Outcome`] stands for in contracts.
pub struct OutcomeView {
    pub effects: Seq<EffectView>,
    pub action: ActionView,
}

impl View for Outcome {
    type V = OutcomeView;

    open spec fn view(&self) -> OutcomeView {
        OutcomeView { effects: self.effects.deep_view(), action: self.action@ }
    }
}

} // verus!
