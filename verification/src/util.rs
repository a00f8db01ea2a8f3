//! Shared pieces: the API host prefix, decimal and boolean text, and the
//! response normalizer every JSON endpoint routes through.

use vstd::prelude::*;
use vstd::string::*;

use crate::http::GhubError;
use crate::http::is_success_status;
use crate::json::JsonValue;
use crate::json::get_index;
use crate::json::get_key;
use crate::json::index_of;
use crate::json::key_of;
use crate::json::render;
use crate::json::render_spec;

verus! {

pub open spec fn api_host() -> Seq<char> {
    "https://api.github.com"@
}

pub open spec fn api_path_spec(path: Seq<char>) -> Seq<char> {
    api_host() + path
}

/// Prefixes an API path with the fixed GitHub API host.
pub fn api_path(path: &str) -> (r: String)
    ensures
        r@ == api_path_spec(path@),
{
    let mut s = String::from_str("https://api.github.com");
    s.append(path);
    s
}

pub open spec fn digit_char(d: int) -> char {
    if d == 0 { '0' } else if d == 1 { '1' } else if d == 2 { '2' } else if d == 3 { '3' }
    else if d == 4 { '4' } else if d == 5 { '5' } else if d == 6 { '6' } else if d == 7 { '7' }
    else if d == 8 { '8' } else { '9' }
}

/// The decimal text of a nonnegative integer, most significant digit first.
pub open spec fn dec_digits(n: int) -> Seq<char>
    recommends
        n >= 0,
    decreases n,
{
    if n < 10 {
        seq![digit_char(n)]
    } else {
        dec_digits(n / 10).push(digit_char(n % 10))
    }
}

fn digit_str(d: u32) -> (r: &'static str)
    requires
        d < 10,
    ensures
        r@ == seq![digit_char(d as int)],
{
    let r: &'static str = if d == 0 { "0" } else if d == 1 { "1" } else if d == 2 { "2" }
        else if d == 3 { "3" } else if d == 4 { "4" } else if d == 5 { "5" }
        else if d == 6 { "6" } else if d == 7 { "7" } else if d == 8 { "8" } else { "9" };
    proof {
        reveal_strlit("0"); reveal_strlit("1"); reveal_strlit("2"); reveal_strlit("3");
        reveal_strlit("4"); reveal_strlit("5"); reveal_strlit("6"); reveal_strlit("7");
        reveal_strlit("8"); reveal_strlit("9");
        assert(r@ =~= seq![digit_char(d as int)]);
    }
    r
}

/// Renders an integer in decimal.
pub fn u32_to_dec(n: u32) -> (r: String)
    ensures
        r@ == dec_digits(n as int),
    decreases n,
{
    if n < 10 {
        String::from_str(digit_str(n))
    } else {
        let mut s = u32_to_dec(n / 10);
        s.append(digit_str(n % 10));
        proof {
            assert(dec_digits(n as int) =~= dec_digits(n as int / 10) + seq![
                digit_char(n as int % 10),
            ]);
        }
        s
    }
}

pub open spec fn bool_text(b: bool) -> Seq<char> {
    if b { "true"@ } else { "false"@ }
}

/// Renders a boolean as `true` or `false`.
pub fn bool_str(b: bool) -> (r: &'static str)
    ensures
        r@ == bool_text(b),
{
    if b { "true" } else { "false" }
}

/// The provider's error message, when the body holds a string at
/// `errors[0].message`.
pub open spec fn provider_error_message_spec(body: JsonValue) -> Option<Seq<char>> {
    match key_of(index_of(key_of(body, "errors"@), 0), "message"@) {
        JsonValue::Str(s) => Some(s@),
        _ => None,
    }
}

/// The diagnostic text used when an error body carries no provider message:
/// a fixed sentence followed by the rendered body.
pub open spec fn malformed_error_text(body: JsonValue) -> Seq<char> {
    "Could not read github error message. Response body "@ + render_spec(body)
}

/// Extracts the string at `errors[0].message` from an error body.
pub fn provider_error_message(body: &JsonValue) -> (r: Option<String>)
    ensures
        match r {
            Some(s) => provider_error_message_spec(*body) == Some(s@),
            None => provider_error_message_spec(*body) is None,
        },
{
    let errors = match get_key(body, "errors") {
        Some(e) => e,
        None => { return None; },
    };
    let first = match get_index(errors, 0) {
        Some(x) => x,
        None => { return None; },
    };
    let msg = match get_key(first, "message") {
        Some(m) => m,
        None => { return None; },
    };
    match msg {
        JsonValue::Str(s) => Some(s.clone()),
        _ => None,
    }
}

/// Normalizes a server response. A 2xx status hands the decoded body back
/// unchanged; any other status becomes a typed error: the provider's message
/// where the body holds one at `errors[0].message`, otherwise a diagnostic
/// that embeds the rendered body.
pub fn result_from_server_response(status: u16, body: JsonValue) -> (r: Result<
    JsonValue,
    GhubError,
>)
    ensures
        is_success_status(status) ==> r == Result::<JsonValue, GhubError>::Ok(body),
        !is_success_status(status) ==> match provider_error_message_spec(body) {
            Some(m) => r matches Result::Err(GhubError::Api(s)) && s@ == m,
            None => r matches Result::Err(GhubError::MalformedErrorBody(s)) && s@
                == malformed_error_text(body),
        },
{
    if 200 <= status && status < 300 {
        Ok(body)
    } else {
        match provider_error_message(&body) {
            Some(m) => Err(GhubError::Api(m)),
            None => {
                let mut text = String::from_str(
                    "Could not read github error message. Response body ",
                );
                let rendered = render(&body);
                text.append(rendered.as_str());
                Err(GhubError::MalformedErrorBody(text))
            },
        }
    }
}

} // verus!
