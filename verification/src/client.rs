//! Construction of the top-level client's fixed default headers.
//!
//! A client is configured once, with three headers sent on every call:
//! Accept (the versioned JSON media type), Authorization (`token <PAT>`) and
//! User-Agent. Construction fails exactly when the personal access token holds
//! a character that cannot stand in an HTTP header value.

use vstd::prelude::*;
use vstd::string::*;

use crate::http::GhubError;

verus! {

/// A character legal inside an HTTP header value: horizontal tab, or any
/// character other than the C0 controls and delete.
pub open spec fn valid_header_char(c: char) -> bool {
    c == '\t' || (0x20 <= c as int && c as int != 0x7f)
}

pub open spec fn valid_header_value(s: Seq<char>) -> bool {
    forall|i: int| 0 <= i < s.len() ==> valid_header_char(s[i])
}

pub open spec fn accept_value() -> Seq<char> {
    "application/vnd.github.v3+json"@
}

pub open spec fn user_agent_value() -> Seq<char> {
    "reqwest"@
}

pub open spec fn authorization_value(token: Seq<char>) -> Seq<char> {
    "token "@ + token
}

pub open spec fn invalid_token_text() -> Seq<char> {
    "personal access token is not a valid header value"@
}

/// The default headers of one client: fixed at construction, shared by every
/// resource client built around the same transport.
#[derive(Debug)]
pub struct ClientConfig {
    pub accept: String,
    pub authorization: String,
    pub user_agent: String,
}

/// The three headers hold exactly the specified entries for `token`.
pub open spec fn client_config_wf(c: ClientConfig, token: Seq<char>) -> bool {
    &&& c.accept@ == accept_value()
    &&& c.authorization@ == authorization_value(token)
    &&& c.user_agent@ == user_agent_value()
}

/// Checks every character of `s` against the header-value charset.
pub fn is_valid_header_value(s: &str) -> (r: bool)
    ensures
        r == valid_header_value(s@),
{
    let n = s.unicode_len();
    let mut i: usize = 0;
    while i < n
        invariant
            n == s@.len(),
            i <= n,
            forall|j: int| 0 <= j < i ==> valid_header_char(s@[j]),
        decreases n - i,
    {
        let c = s.get_char(i);
        if !(c == '\t' || (0x20 <= c as u32 && c as u32 != 0x7f)) {
            return false;
        }
        i = i + 1;
    }
    true
}

/// Builds the default-header set for a client authenticated with
/// `personal_access_token`. Succeeds, with exactly the three specified
/// entries, if and only if the token fits the header-value charset.
pub fn client_config(personal_access_token: &str) -> (r: Result<ClientConfig, GhubError>)
    ensures
        valid_header_value(personal_access_token@) ==> (r matches Ok(c)
            && client_config_wf(c, personal_access_token@)),
        !valid_header_value(personal_access_token@) ==> (r matches Err(
            GhubError::Construction(m),
        ) && m@ == invalid_token_text()),
{
    if is_valid_header_value(personal_access_token) {
        let mut authorization = String::from_str("token ");
        authorization.append(personal_access_token);
        Ok(
            ClientConfig {
                accept: String::from_str("application/vnd.github.v3+json"),
                authorization,
                user_agent: String::from_str("reqwest"),
            },
        )
    } else {
        Err(
            GhubError::Construction(
                String::from_str("personal access token is not a valid header value"),
            ),
        )
    }
}

/// For every token within the header-value charset, the derived Authorization
/// value is itself a legal header value, so a transport can install all three
/// default headers of a fresh configuration without rejecting one.
pub proof fn lemma_authorization_value_valid(token: Seq<char>)
    requires
        valid_header_value(token),
    ensures
        valid_header_value(authorization_value(token)),
{
    reveal_strlit("token ");
    let prefix = "token "@;
    let value = authorization_value(token);
    assert forall|i: int| 0 <= i < value.len() implies valid_header_char(value[i]) by {
        if i < prefix.len() {
            assert(value[i] == prefix[i]);
            assert(valid_header_char(prefix[i]));
        } else {
            assert(value[i] == token[i - prefix.len()]);
        }
    };
}

} // verus!
