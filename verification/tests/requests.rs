use ghub::branch::DeleteBranchInput;
use ghub::branch::ListBranchInput;
use ghub::branch::delete_branch_request;
use ghub::branch::list_branches_request;
use ghub::http::HttpMethod;
use ghub::json::JsonValue;
use ghub::pull_request::CreatePullRequestInput;
use ghub::pull_request::GetPullRequestByHeadInput;
use ghub::pull_request::GithubMergeMethod;
use ghub::pull_request::MergePullRequestInput;
use ghub::pull_request::create_pull_request_request;
use ghub::pull_request::get_by_head_detail_request;
use ghub::pull_request::get_by_head_list_request;
use ghub::pull_request::merge_method_to_string;
use ghub::pull_request::merge_pull_request_request;
use ghub::reference::DeleteReferenceInput;
use ghub::reference::delete_reference_request;
use ghub::reference::delete_result;
use ghub::util::api_path;

#[test]
fn decimal_and_boolean_text_edges() {
    assert_eq!(ghub::util::u32_to_dec(0), "0");
    assert_eq!(ghub::util::u32_to_dec(10), "10");
    assert_eq!(ghub::util::u32_to_dec(4294967295), "4294967295");
    assert_eq!(ghub::util::bool_str(true), "true");
    assert_eq!(ghub::util::bool_str(false), "false");
}

#[test]
fn api_path_prefixes_fixed_host() {
    assert_eq!(api_path("/repos/o/r/pulls"), "https://api.github.com/repos/o/r/pulls");
}

#[test]
fn merge_method_tokens() {
    assert_eq!(merge_method_to_string(GithubMergeMethod::Merge), "merge");
    assert_eq!(merge_method_to_string(GithubMergeMethod::Rebase), "rebase");
    assert_eq!(merge_method_to_string(GithubMergeMethod::Squash), "squash");
}

#[test]
fn merge_method_tokens_are_stable() {
    assert_eq!(
        merge_method_to_string(GithubMergeMethod::Squash),
        merge_method_to_string(GithubMergeMethod::Squash)
    );
}

#[test]
fn create_pull_request_builds_exact_body() {
    let input = CreatePullRequestInput {
        title: String::from("T"),
        repo_path: String::from("o/r"),
        branch_name: String::from("feat"),
        into_branch: String::from("main"),
    };
    let req = create_pull_request_request(&input);
    assert_eq!(req.method, HttpMethod::Post);
    assert_eq!(req.url, "https://api.github.com/repos/o/r/pulls");
    assert_eq!(
        req.body.as_deref(),
        Some("{\"title\":\"T\",\"head\":\"feat\",\"base\":\"main\"}")
    );
}

#[test]
fn create_pull_request_escapes_title() {
    let input = CreatePullRequestInput {
        title: String::from("say \"hi\"\n"),
        repo_path: String::from("o/r"),
        branch_name: String::from("b"),
        into_branch: String::from("main"),
    };
    let req = create_pull_request_request(&input);
    assert_eq!(
        req.body.as_deref(),
        Some("{\"title\":\"say \\\"hi\\\"\\n\",\"head\":\"b\",\"base\":\"main\"}")
    );
}

#[test]
fn merge_pull_request_builds_put_with_method_body() {
    let input = MergePullRequestInput {
        repo_path: String::from("o/r"),
        pull_number: String::from("42"),
        merge_method: GithubMergeMethod::Squash,
    };
    let req = merge_pull_request_request(&input);
    assert_eq!(req.method, HttpMethod::Put);
    assert_eq!(req.url, "https://api.github.com/repos/o/r/pulls/42/merge");
    assert_eq!(req.body.as_deref(), Some("{\"merge_method\":\"squash\"}"));
}

#[test]
fn list_branches_query_string_with_defaults() {
    let input = ListBranchInput {
        repo_path: String::from("o/r"),
        protected: None,
        per_page: 100,
        page: 1,
    };
    let req = list_branches_request(&input);
    assert_eq!(req.method, HttpMethod::Get);
    assert_eq!(
        req.url,
        "https://api.github.com/repos/o/r/branches?protected=false&per_page=100&page=1"
    );
    assert!(req.body.is_none());
}

#[test]
fn list_branches_query_string_with_protected_filter() {
    let input = ListBranchInput {
        repo_path: String::from("o/r"),
        protected: Some(true),
        per_page: 7,
        page: 0,
    };
    let req = list_branches_request(&input);
    assert_eq!(
        req.url,
        "https://api.github.com/repos/o/r/branches?protected=true&per_page=7&page=0"
    );
}

#[test]
fn delete_reference_builds_delete_request() {
    let input = DeleteReferenceInput {
        repo_path: String::from("o/r"),
        reference_path: String::from("tags/v1"),
    };
    let req = delete_reference_request(&input);
    assert_eq!(req.method, HttpMethod::Delete);
    assert_eq!(req.url, "https://api.github.com/repos/o/r/git/refs/tags/v1");
    assert!(req.body.is_none());
}

#[test]
fn delete_branch_delegates_to_reference_delete() {
    let branch_input = DeleteBranchInput {
        repo_path: String::from("o/r"),
        branch_name: String::from("feat"),
    };
    let reference_input = DeleteReferenceInput {
        repo_path: String::from("o/r"),
        reference_path: String::from("heads/feat"),
    };
    let from_branch = delete_branch_request(&branch_input);
    let from_reference = delete_reference_request(&reference_input);
    assert_eq!(from_branch.method, from_reference.method);
    assert_eq!(from_branch.url, from_reference.url);
    assert_eq!(from_branch.url, "https://api.github.com/repos/o/r/git/refs/heads/feat");
    assert!(from_branch.body.is_none() && from_reference.body.is_none());
}

#[test]
fn delete_result_by_status_alone() {
    assert!(delete_result(204).is_ok());
    assert!(delete_result(200).is_ok());
    match delete_result(404) {
        Err(ghub::http::GhubError::UnexpectedStatus(code)) => assert_eq!(code, 404),
        _ => panic!("expected an unexpected-status error"),
    }
}

#[test]
fn get_by_head_list_request_url() {
    let input = GetPullRequestByHeadInput {
        repo_path: String::from("o/r"),
        branch_owner: String::from("sendy"),
        branch_name: String::from("x"),
    };
    let req = get_by_head_list_request(&input);
    assert_eq!(req.method, HttpMethod::Get);
    assert_eq!(req.url, "https://api.github.com/repos/o/r/pulls?head=sendy:x");
    assert!(req.body.is_none());
}

#[test]
fn get_by_head_empty_list_is_no_match() {
    let list_body = JsonValue::Arr(vec![]);
    assert!(get_by_head_detail_request("o/r", &list_body).is_none());
}

#[test]
fn get_by_head_null_first_element_is_no_match() {
    let list_body = JsonValue::Arr(vec![JsonValue::Null]);
    assert!(get_by_head_detail_request("o/r", &list_body).is_none());
    let not_an_array = JsonValue::Obj(vec![]);
    assert!(get_by_head_detail_request("o/r", &not_an_array).is_none());
}

#[test]
fn get_by_head_match_issues_detail_request() {
    let list_body = JsonValue::Arr(vec![JsonValue::Obj(vec![
        (String::from("number"), JsonValue::Num(String::from("42"))),
        (String::from("title"), JsonValue::Str(String::from("T"))),
    ])]);
    let req = get_by_head_detail_request("o/r", &list_body).unwrap();
    assert_eq!(req.method, HttpMethod::Get);
    assert_eq!(req.url, "https://api.github.com/repos/o/r/pulls/42");
    assert!(req.body.is_none());
}
