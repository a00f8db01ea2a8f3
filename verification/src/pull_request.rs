//! The pull-request client: creation, merge with a chosen strategy, and the
//! two-step lookup of an open pull request by its head branch.

use vstd::prelude::*;
use vstd::string::*;

use crate::http::HttpMethod;
use crate::http::HttpRequest;
use crate::json::JsonValue;
use crate::json::escape_json_string;
use crate::json::escape_spec;
use crate::json::get_index;
use crate::json::get_key;
use crate::json::index_of;
use crate::json::key_of;
use crate::json::render;
use crate::json::render_spec;
use crate::util::api_path;
use crate::util::api_path_spec;

verus! {

/// The strategy used when integrating a pull request's commits into the
/// target branch. Serializes to exactly `merge`, `rebase` or `squash`.
#[derive(Clone, Copy, Debug, PartialEq, Eq, Structural)]
pub enum GithubMergeMethod {
    Merge,
    Rebase,
    Squash,
}

/// The wire token of a merge method.
pub open spec fn merge_method_str(m: GithubMergeMethod) -> Seq<char> {
    match m {
        GithubMergeMethod::Merge => "merge"@,
        GithubMergeMethod::Rebase => "rebase"@,
        GithubMergeMethod::Squash => "squash"@,
    }
}

/// Serializes a merge method to its wire token.
pub fn merge_method_to_string(merge_method: GithubMergeMethod) -> (r: String)
    ensures
        r@ == merge_method_str(merge_method),
{
    match merge_method {
        GithubMergeMethod::Merge => String::from_str("merge"),
        GithubMergeMethod::Squash => String::from_str("squash"),
        GithubMergeMethod::Rebase => String::from_str("rebase"),
    }
}

/// Serialization of a merge method is closed over the three accepted wire
/// tokens: every variant maps to exactly one of them, and the mapping is a
/// function of the variant alone.
pub proof fn lemma_merge_method_tokens(m: GithubMergeMethod)
    ensures
        merge_method_str(m) == "merge"@ || merge_method_str(m) == "rebase"@ || merge_method_str(
            m,
        ) == "squash"@,
{
}

/// The three wire tokens are pairwise distinct, so the serialized form decides
/// the merge method: two methods serialize alike exactly when they are equal.
pub proof fn lemma_merge_method_tokens_distinct(a: GithubMergeMethod, b: GithubMergeMethod)
    ensures
        merge_method_str(a) == merge_method_str(b) <==> a == b,
{
    reveal_strlit("merge");
    reveal_strlit("rebase");
    reveal_strlit("squash");
    assert("rebase"@[0] == 'r' && "squash"@[0] == 's');
}

/// Input of a pull-request creation.
#[derive(Debug)]
pub struct CreatePullRequestInput {
    pub title: String,
    pub repo_path: String,
    pub branch_name: String,
    pub into_branch: String,
}

/// Input of a pull-request merge.
#[derive(Debug)]
pub struct MergePullRequestInput {
    pub repo_path: String,
    pub pull_number: String,
    pub merge_method: GithubMergeMethod,
}

/// Input of a lookup by head branch.
#[derive(Debug)]
pub struct GetPullRequestByHeadInput {
    pub repo_path: String,
    pub branch_owner: String,
    pub branch_name: String,
}

pub open spec fn create_pull_request_path(repo: Seq<char>) -> Seq<char> {
    "/repos/"@ + repo + "/pulls"@
}

/// The creation body: `{"title":…,"head":…,"base":…}` with each value
/// escaped as a JSON string literal.
pub open spec fn create_pull_request_body(
    title: Seq<char>,
    head: Seq<char>,
    base: Seq<char>,
) -> Seq<char> {
    "{\"title\":\""@ + escape_spec(title) + "\",\"head\":\""@ + escape_spec(head)
        + "\",\"base\":\""@ + escape_spec(base) + "\"}"@
}

/// The creation call: `POST /repos/{repo}/pulls` with the JSON body holding
/// the title, the head branch and the base branch.
pub fn create_pull_request_request(input: &CreatePullRequestInput) -> (r: HttpRequest)
    ensures
        r.method == HttpMethod::Post,
        r.url@ == api_path_spec(create_pull_request_path(input.repo_path@)),
        r.body matches Some(b) && b@ == create_pull_request_body(
            input.title@,
            input.branch_name@,
            input.into_branch@,
        ),
{
    let mut path = String::from_str("/repos/");
    path.append(input.repo_path.as_str());
    path.append("/pulls");
    let url = api_path(path.as_str());
    let mut body = String::from_str("{\"title\":\"");
    let title = escape_json_string(input.title.as_str());
    body.append(title.as_str());
    body.append("\",\"head\":\"");
    let head = escape_json_string(input.branch_name.as_str());
    body.append(head.as_str());
    body.append("\",\"base\":\"");
    let base = escape_json_string(input.into_branch.as_str());
    body.append(base.as_str());
    body.append("\"}");
    HttpRequest { method: HttpMethod::Post, url, body: Some(body) }
}

pub open spec fn merge_pull_request_path(repo: Seq<char>, pull_number: Seq<char>) -> Seq<char> {
    "/repos/"@ + repo + "/pulls/"@ + pull_number + "/merge"@
}

/// The merge body: `{"merge_method":…}` with the serialized strategy.
pub open spec fn merge_pull_request_body(m: GithubMergeMethod) -> Seq<char> {
    "{\"merge_method\":\""@ + merge_method_str(m) + "\"}"@
}

/// The merge call: `PUT /repos/{repo}/pulls/{n}/merge` with the body naming
/// the merge strategy.
pub fn merge_pull_request_request(input: &MergePullRequestInput) -> (r: HttpRequest)
    ensures
        r.method == HttpMethod::Put,
        r.url@ == api_path_spec(
            merge_pull_request_path(input.repo_path@, input.pull_number@),
        ),
        r.body matches Some(b) && b@ == merge_pull_request_body(input.merge_method),
{
    let mut path = String::from_str("/repos/");
    path.append(input.repo_path.as_str());
    path.append("/pulls/");
    path.append(input.pull_number.as_str());
    path.append("/merge");
    let url = api_path(path.as_str());
    let mut body = String::from_str("{\"merge_method\":\"");
    let method = merge_method_to_string(input.merge_method);
    body.append(method.as_str());
    body.append("\"}");
    HttpRequest { method: HttpMethod::Put, url, body: Some(body) }
}

/// The first step of the lookup by head:
/// `GET /repos/{repo}/pulls?head={owner}:{branch}`, which returns the open
/// pull requests whose head is `{owner}:{branch}`.
pub open spec fn list_pulls_by_head_path(
    repo: Seq<char>,
    owner: Seq<char>,
    branch: Seq<char>,
) -> Seq<char> {
    "/repos/"@ + repo + "/pulls?head="@ + owner + ":"@ + branch
}

pub fn get_by_head_list_request(input: &GetPullRequestByHeadInput) -> (r: HttpRequest)
    ensures
        r.method == HttpMethod::Get,
        r.url@ == api_path_spec(
            list_pulls_by_head_path(
                input.repo_path@,
                input.branch_owner@,
                input.branch_name@,
            ),
        ),
        r.body is None,
{
    let mut path = String::from_str("/repos/");
    path.append(input.repo_path.as_str());
    path.append("/pulls?head=");
    path.append(input.branch_owner.as_str());
    path.append(":");
    path.append(input.branch_name.as_str());
    let url = api_path(path.as_str());
    HttpRequest { method: HttpMethod::Get, url, body: None }
}

pub open spec fn pull_request_detail_path(repo: Seq<char>, number_text: Seq<char>) -> Seq<char> {
    "/repos/"@ + repo + "/pulls/"@ + number_text
}

/// The second step of the lookup by head. The first element of the list
/// response decides: when it is an object, the match's `number` names the
/// detail endpoint to fetch (some fields are only populated there); when the
/// array is empty, the element is missing or it is not an object, there is no
/// matching open pull request and no second call is issued.
pub fn get_by_head_detail_request(repo_path: &str, list_body: &JsonValue) -> (r: Option<
    HttpRequest,
>)
    ensures
        (index_of(*list_body, 0) is Obj) <==> r is Some,
        r matches Some(req) ==> req.method == HttpMethod::Get && req.url@ == api_path_spec(
            pull_request_detail_path(
                repo_path@,
                render_spec(key_of(index_of(*list_body, 0), "number"@)),
            ),
        ) && req.body is None,
{
    let first = match get_index(list_body, 0) {
        Some(x) => x,
        None => { return None; },
    };
    match first {
        JsonValue::Obj(_) => {},
        _ => { return None; },
    }
    let number_text = match get_key(first, "number") {
        Some(n) => render(n),
        None => {
            let r = String::from_str("null");
            proof {
                reveal_strlit("null");
                assert(r@ =~= render_spec(JsonValue::Null));
            }
            r
        },
    };
    let mut path = String::from_str("/repos/");
    path.append(repo_path);
    path.append("/pulls/");
    path.append(number_text.as_str());
    let url = api_path(path.as_str());
    Some(HttpRequest { method: HttpMethod::Get, url, body: None })
}

} // verus!
