//! The ways in which a backup can fail.

use crate::text::{decimal, decimal_string};
use vstd::prelude::*;
use vstd::string::StringExecFns;

verus! {

/// Why a step of a backup failed.
///
/// `Config`, and any error while the account or its repositories are being
/// looked up, ends the run. An error while one repository is fetched or its
/// archive is written is counted and the run goes on.
#[derive(Debug, PartialEq, Eq)]
pub enum BackupError {
    /// The credential or the command line is missing or unusable.
    Config { detail: String },
    /// The request never got an answer: no connection, no name resolution, a timeout.
    Transport { detail: String },
    /// The platform answered with a client or server error status.
    HttpStatus { code: u16 },
    /// The answer does not have the expected shape.
    Decode { detail: String },
    /// The archive could not be written.
    Io { detail: String },
}

/// What a [`BackupError`] stands for in contracts.
pub enum BackupErrorView {
    Config { detail: Seq<char> },
    Transport { detail: Seq<char> },
    HttpStatus { code: u16 },
    Decode { detail: Seq<char> },
    Io { detail: Seq<char> },
}

impl BackupErrorView {
    /// The text that describes the error to the user.
    pub open spec fn message(self) -> Seq<char> {
        match self {
            BackupErrorView::Config { detail } => detail,
            BackupErrorView::Transport { detail } => detail,
            BackupErrorView::HttpStatus { code } => "HTTP status "@ + decimal(code as nat),
            BackupErrorView::Decode { detail } => detail,
            BackupErrorView::Io { detail } => detail,
        }
    }
}

impl View for BackupError {
    type V = BackupErrorView;

    open spec fn view(&self) -> BackupErrorView {
        match self {
            BackupError::Config { detail } => BackupErrorView::Config { detail: detail@ },
            BackupError::Transport { detail } => BackupErrorView::Transport { detail: detail@ },
            BackupError::HttpStatus { code } => BackupErrorView::HttpStatus { code: *code },
            BackupError::Decode { detail } => BackupErrorView::Decode { detail: detail@ },
            BackupError::Io { detail } => BackupErrorView::Io { detail: detail@ },
        }
    }
}

impl DeepView for BackupError {
    type V = BackupErrorView;

    open spec fn deep_view(&self) -> BackupErrorView {
        self@
    }
}

/// What a result stands for in contracts: what its value or its error stands for.
pub open spec fn result_view<T: DeepView, E: DeepView>(result: Result<T, E>) -> Result<T::V, E::V> {
    match result {
        Ok(value) => Ok(value.deep_view()),
        Err(error) => Err(error.deep_view()),
    }
}

/// Bytes stand for themselves: the deep view of a byte vector is its view.
pub proof fn lemma_bytes_view(bytes: Vec<u8>)
    ensures
        bytes.deep_view() == bytes@,
{
    assert(bytes.deep_view() =~= bytes@);
}

impl BackupError {
    /// The text that describes the error to the user.
    pub fn message(&self) -> (text: String)
        ensures
            text@ == self@.message(),
    {
        match self {
            BackupError::Config { detail } => detail.clone(),
            BackupError::Transport { detail } => detail.clone(),
            BackupError::HttpStatus { code } => {
                let mut text = String::from_str("HTTP status ");
                text.append(decimal_string(*code as u64).as_str());
                text
            },
            BackupError::Decode { detail } => detail.clone(),
            BackupError::Io { detail } => detail.clone(),
        }
    }
}

impl Clone for BackupError {
    fn clone(&self) -> (copy: Self)
        ensures
            copy@ == self@,
    {
        match self {
            BackupError::Config { detail } => BackupError::Config { detail: detail.clone() },
            BackupError::Transport { detail } => BackupError::Transport { detail: detail.clone() },
            BackupError::HttpStatus { code } => BackupError::HttpStatus { code: *code },
            BackupError::Decode { detail } => BackupError::Decode { detail: detail.clone() },
            BackupError::Io { detail } => BackupError::Io { detail: detail.clone() },
        }
    }
}

} // verus!
