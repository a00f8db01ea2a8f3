use ghub::client::client_config;
use ghub::http::GhubError;

#[test]
fn client_config_valid_token_has_exactly_three_headers() {
    let config = client_config("sample-token-123").unwrap();
    assert_eq!(config.accept, "application/vnd.github.v3+json");
    assert_eq!(config.authorization, "token sample-token-123");
    assert_eq!(config.user_agent, "reqwest");
}

#[test]
fn client_config_plain_token_succeeds() {
    let config = client_config("abc 123 !@#").unwrap();
    assert_eq!(config.authorization, "token abc 123 !@#");
}

#[test]
fn client_config_rejects_newline_in_token() {
    let err = client_config("bad\ntoken").unwrap_err();
    match err {
        GhubError::Construction(m) => {
            assert_eq!(m, "personal access token is not a valid header value");
        }
        _ => panic!("expected a construction error"),
    }
}

#[test]
fn client_config_rejects_delete_character() {
    assert!(client_config("a\u{7f}b").is_err());
}

#[test]
fn client_config_accepts_tab() {
    assert!(client_config("a\tb").is_ok());
}
