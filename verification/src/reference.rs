//! The git-reference client: deletion of a branch or tag reference by path.

use vstd::prelude::*;
use vstd::string::*;

use crate::http::GhubError;
use crate::http::HttpMethod;
use crate::http::HttpRequest;
use crate::http::is_success_status;
use crate::util::api_path;
use crate::util::api_path_spec;

verus! {

/// Input of a reference deletion.
#[derive(Debug)]
pub struct DeleteReferenceInput {
    pub repo_path: String,
    /// Reference path formats:
    /// - Branch: `heads/<branch name>`
    /// - Tag: `tags/<tag name>`
    pub reference_path: String,
}

pub open spec fn delete_reference_path(repo: Seq<char>, reference: Seq<char>) -> Seq<char> {
    "/repos/"@ + repo + "/git/refs/"@ + reference
}

/// The delete call for a git reference: `DELETE /repos/{repo}/git/refs/{ref}`
/// with no body.
pub fn delete_reference_request(input: &DeleteReferenceInput) -> (r: HttpRequest)
    ensures
        r.method == HttpMethod::Delete,
        r.url@ == api_path_spec(
            delete_reference_path(input.repo_path@, input.reference_path@),
        ),
        r.body is None,
{
    let mut path = String::from_str("/repos/");
    path.append(input.repo_path.as_str());
    path.append("/git/refs/");
    path.append(input.reference_path.as_str());
    let url = api_path(path.as_str());
    HttpRequest { method: HttpMethod::Delete, url, body: None }
}

/// Interprets the status of a reference-delete response. The endpoint returns
/// no content on success, so the status alone decides: 2xx succeeds, anything
/// else becomes an error built from the status code.
pub fn delete_result(status: u16) -> (r: Result<(), GhubError>)
    ensures
        is_success_status(status) ==> r == Result::<(), GhubError>::Ok(()),
        !is_success_status(status) ==> r == Result::<(), GhubError>::Err(
            GhubError::UnexpectedStatus(status),
        ),
{
    if 200 <= status && status < 300 {
        Ok(())
    } else {
        Err(GhubError::UnexpectedStatus(status))
    }
}

} // verus!
