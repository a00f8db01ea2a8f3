//! The branch client: listing with pagination and an optional
//! protected-filter, and deletion by delegation to the reference client.

use vstd::prelude::*;
use vstd::string::*;

use crate::http::HttpMethod;
use crate::http::HttpRequest;
use crate::reference::DeleteReferenceInput;
use crate::reference::delete_reference_path;
use crate::reference::delete_reference_request;
use crate::util::api_path;
use crate::util::api_path_spec;
use crate::util::bool_str;
use crate::util::bool_text;
use crate::util::dec_digits;
use crate::util::u32_to_dec;

verus! {

/// Input of a branch listing.
#[derive(Debug)]
pub struct ListBranchInput {
    pub repo_path: String,
    pub protected: Option<bool>,
    pub per_page: u32,
    pub page: u32,
}

/// Input of a branch deletion.
#[derive(Debug)]
pub struct DeleteBranchInput {
    pub repo_path: String,
    pub branch_name: String,
}

/// The reference path a branch name translates to.
pub open spec fn branch_reference_path(branch: Seq<char>) -> Seq<char> {
    "heads/"@ + branch
}

pub open spec fn delete_branch_path(repo: Seq<char>, branch: Seq<char>) -> Seq<char> {
    delete_reference_path(repo, branch_reference_path(branch))
}

/// An unset protected-filter defaults to false.
pub open spec fn protected_or_default(protected: Option<bool>) -> bool {
    match protected {
        Some(b) => b,
        None => false,
    }
}

pub open spec fn list_branches_path(
    repo: Seq<char>,
    protected: bool,
    per_page: int,
    page: int,
) -> Seq<char> {
    "/repos/"@ + repo + "/branches?protected="@ + bool_text(protected) + "&per_page="@
        + dec_digits(per_page) + "&page="@ + dec_digits(page)
}

/// Deleting a branch is pure delegation: the branch name becomes the
/// reference path `heads/<branch>` and the reference client's delete call is
/// issued for it, under the same repository.
pub fn delete_branch_request(input: &DeleteBranchInput) -> (r: HttpRequest)
    ensures
        r.method == HttpMethod::Delete,
        r.url@ == api_path_spec(delete_branch_path(input.repo_path@, input.branch_name@)),
        r.body is None,
{
    let mut reference_path = String::from_str("heads/");
    reference_path.append(input.branch_name.as_str());
    let reference_input = DeleteReferenceInput {
        repo_path: input.repo_path.clone(),
        reference_path,
    };
    delete_reference_request(&reference_input)
}

/// Delegation equivalence: the branch delete call for `name` under `repo` is
/// exactly the reference delete call for `heads/<name>` under `repo`.
pub proof fn lemma_delete_branch_delegates(repo: Seq<char>, name: Seq<char>)
    ensures
        delete_branch_path(repo, name) == delete_reference_path(repo, "heads/"@ + name),
{
}

/// The list call:
/// `GET /repos/{repo}/branches?protected={bool}&per_page={n}&page={n}`
/// with no body.
pub fn list_branches_request(input: &ListBranchInput) -> (r: HttpRequest)
    ensures
        r.method == HttpMethod::Get,
        r.url@ == api_path_spec(
            list_branches_path(
                input.repo_path@,
                protected_or_default(input.protected),
                input.per_page as int,
                input.page as int,
            ),
        ),
        r.body is None,
{
    let protected = match input.protected {
        Some(b) => b,
        None => false,
    };
    let mut path = String::from_str("/repos/");
    path.append(input.repo_path.as_str());
    path.append("/branches?protected=");
    path.append(bool_str(protected));
    path.append("&per_page=");
    let per_page = u32_to_dec(input.per_page);
    path.append(per_page.as_str());
    path.append("&page=");
    let page = u32_to_dec(input.page);
    path.append(page.as_str());
    let url = api_path(path.as_str());
    HttpRequest { method: HttpMethod::Get, url, body: None }
}

} // verus!
