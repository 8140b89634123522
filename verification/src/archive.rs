//! The archive of one repository and the place where it is stored.

use crate::error::{lemma_bytes_view, result_view, BackupError, BackupErrorView};
use crate::repository::{Repository, RepositoryView};
use crate::request::{accept_response, accepted, RawResponse, RawResponseView};
use vstd::prelude::*;
use vstd::string::StringExecFns;

verus! {

/// The archive of one repository: the repository's name and the bytes that
/// the platform sent.
#[derive(Debug, PartialEq, Eq)]
pub struct ZippedRepository {
    pub name: String,
    pub zip: Vec<u8>,
}

/// What a [`ZippedRepository`] stands for in contracts.
pub struct ZippedRepositoryView {
    pub name: Seq<char>,
    pub zip: Seq<u8>,
}

impl View for ZippedRepository {
    type V = ZippedRepositoryView;

    open spec fn view(&self) -> ZippedRepositoryView {
        ZippedRepositoryView { name: self.name@, zip: self.zip@ }
    }
}

impl DeepView for ZippedRepository {
    type V = ZippedRepositoryView;

    open spec fn deep_view(&self) -> ZippedRepositoryView {
        self@
    }
}

/// What the answer to an archive request is worth for `repository`: the
/// archive, made of the repository's name and the whole body as it came,
/// unless the request failed or the status reports an error.
pub open spec fn zipped(
    repository: RepositoryView,
    answer: Result<RawResponseView, BackupErrorView>,
) -> Result<ZippedRepositoryView, BackupErrorView> {
    match answer {
        Err(error) => Err(error),
        Ok(response) => match accepted(response) {
            Err(error) => Err(error),
            Ok(body) => Ok(ZippedRepositoryView { name: repository.name, zip: body }),
        },
    }
}

/// Turns the answer to the archive request of `repository` into its archive.
/// A request that failed keeps its error, and an error status becomes one.
pub fn get_zipped_repo(repository: &Repository, answer: Result<RawResponse, BackupError>) -> (outcome:
    Result<ZippedRepository, BackupError>)
    ensures
        result_view(outcome) == zipped(repository@, result_view(answer)),
{
    match answer {
        Err(error) => Err(error),
        Ok(response) => match accept_response(response) {
            Err(error) => Err(error),
            Ok(body) => {
                proof {
                    lemma_bytes_view(body);
                }
                Ok(ZippedRepository { name: repository.name.clone(), zip: body })
            },
        },
    }
}

/// Where the archive named `zip_name` is stored under `output_path`.
pub open spec fn saving_path_text(zip_name: Seq<char>, output_path: Seq<char>) -> Seq<char> {
    output_path + "/"@ + zip_name + ".zip"@
}

/// Builds the path of the file that receives the archive named `zip_name`
/// under the directory `output_path`.
pub fn saving_path(zip_name: &str, output_path: &str) -> (path: String)
    ensures
        path@ == saving_path_text(zip_name@, output_path@),
{
    let mut path = String::from_str(output_path);
    path.append("/");
    path.append(zip_name);
    path.append(".zip");
    path
}

} // verus!
