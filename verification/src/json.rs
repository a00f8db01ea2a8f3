//! An untyped JSON tree, with verified rendering and lookup.
//!
//! Response bodies are decoded into `JsonValue` by the calling application and
//! handed to the library, which inspects them (error-message extraction, the
//! pull-request lookup) and renders them back to text where a request body or
//! a diagnostic message needs one. A number keeps its decimal text verbatim,
//! so rendering a decoded value reproduces the number exactly as it arrived.

use vstd::prelude::*;
use vstd::string::*;

verus! {

/// A decoded JSON document. `Num` holds the number's literal text.
#[derive(Debug, PartialEq)]
pub enum JsonValue {
    Null,
    Bool(bool),
    Num(String),
    Str(String),
    Arr(Vec<JsonValue>),
    Obj(Vec<(String, JsonValue)>),
}

/// The lowercase hexadecimal digit for `d`.
pub open spec fn hex_digit_char(d: int) -> char {
    if d == 0 { '0' } else if d == 1 { '1' } else if d == 2 { '2' } else if d == 3 { '3' }
    else if d == 4 { '4' } else if d == 5 { '5' } else if d == 6 { '6' } else if d == 7 { '7' }
    else if d == 8 { '8' } else if d == 9 { '9' } else if d == 10 { 'a' } else if d == 11 { 'b' }
    else if d == 12 { 'c' } else if d == 13 { 'd' } else if d == 14 { 'e' } else { 'f' }
}

/// Characters that cannot stand verbatim inside a JSON string literal.
pub open spec fn must_escape(c: char) -> bool {
    c == '"' || c == '\\' || (c as int) < 0x20
}

/// How one character appears inside a JSON string literal.
pub open spec fn escape_char_spec(c: char) -> Seq<char> {
    if c == '"' { seq!['\\', '"'] }
    else if c == '\\' { seq!['\\', '\\'] }
    else if c == '\u{08}' { seq!['\\', 'b'] }
    else if c == '\u{0c}' { seq!['\\', 'f'] }
    else if c == '\n' { seq!['\\', 'n'] }
    else if c == '\r' { seq!['\\', 'r'] }
    else if c == '\t' { seq!['\\', 't'] }
    else if (c as int) < 0x20 {
        seq!['\\', 'u', '0', '0', hex_digit_char(c as int / 16), hex_digit_char(c as int % 16)]
    } else { seq![c] }
}

/// How a whole string appears inside a JSON string literal (without the quotes).
pub open spec fn escape_spec(s: Seq<char>) -> Seq<char>
    decreases s.len(),
{
    if s.len() == 0 {
        Seq::empty()
    } else {
        escape_char_spec(s[0]) + escape_spec(s.drop_first())
    }
}

pub proof fn lemma_escape_push(s: Seq<char>, c: char)
    ensures
        escape_spec(s.push(c)) == escape_spec(s) + escape_char_spec(c),
    decreases s.len(),
{
    if s.len() == 0 {
        assert(s.push(c)[0] == c);
        assert(s.push(c).drop_first() =~= s);
        assert(escape_spec(s) =~= Seq::<char>::empty());
        assert(escape_spec(s.push(c)) == escape_char_spec(c) + escape_spec(s));
        assert(escape_spec(s.push(c)) =~= escape_spec(s) + escape_char_spec(c));
    } else {
        assert(s.push(c)[0] == s[0]);
        assert(s.push(c).drop_first() =~= s.drop_first().push(c));
        lemma_escape_push(s.drop_first(), c);
        assert(escape_spec(s.push(c)) =~= escape_spec(s) + escape_char_spec(c));
    }
}

fn hex_digit_str(d: u8) -> (r: &'static str)
    requires
        d < 16,
    ensures
        r@ == seq![hex_digit_char(d as int)],
{
    let r: &'static str = if d == 0 { "0" } else if d == 1 { "1" } else if d == 2 { "2" }
        else if d == 3 { "3" } else if d == 4 { "4" } else if d == 5 { "5" }
        else if d == 6 { "6" } else if d == 7 { "7" } else if d == 8 { "8" }
        else if d == 9 { "9" } else if d == 10 { "a" } else if d == 11 { "b" }
        else if d == 12 { "c" } else if d == 13 { "d" } else if d == 14 { "e" } else { "f" };
    proof {
        reveal_strlit("0"); reveal_strlit("1"); reveal_strlit("2"); reveal_strlit("3");
        reveal_strlit("4"); reveal_strlit("5"); reveal_strlit("6"); reveal_strlit("7");
        reveal_strlit("8"); reveal_strlit("9"); reveal_strlit("a"); reveal_strlit("b");
        reveal_strlit("c"); reveal_strlit("d"); reveal_strlit("e"); reveal_strlit("f");
        assert(r@ =~= seq![hex_digit_char(d as int)]);
    }
    r
}

/// The escape sequence for a character that cannot stand verbatim.
fn escaped_char(c: char) -> (r: String)
    requires
        must_escape(c),
    ensures
        r@ == escape_char_spec(c),
{
    if c == '"' {
        let r = String::from_str("\\\"");
        proof { reveal_strlit("\\\""); assert(r@ =~= escape_char_spec(c)); }
        r
    } else if c == '\\' {
        let r = String::from_str("\\\\");
        proof { reveal_strlit("\\\\"); assert(r@ =~= escape_char_spec(c)); }
        r
    } else if c == '\u{08}' {
        let r = String::from_str("\\b");
        proof { reveal_strlit("\\b"); assert(r@ =~= escape_char_spec(c)); }
        r
    } else if c == '\u{0c}' {
        let r = String::from_str("\\f");
        proof { reveal_strlit("\\f"); assert(r@ =~= escape_char_spec(c)); }
        r
    } else if c == '\n' {
        let r = String::from_str("\\n");
        proof { reveal_strlit("\\n"); assert(r@ =~= escape_char_spec(c)); }
        r
    } else if c == '\r' {
        let r = String::from_str("\\r");
        proof { reveal_strlit("\\r"); assert(r@ =~= escape_char_spec(c)); }
        r
    } else if c == '\t' {
        let r = String::from_str("\\t");
        proof { reveal_strlit("\\t"); assert(r@ =~= escape_char_spec(c)); }
        r
    } else {
        let code: u32 = c as u32;
        let mut r = String::from_str("\\u00");
        r.append(hex_digit_str((code / 16) as u8));
        r.append(hex_digit_str((code % 16) as u8));
        proof { reveal_strlit("\\u00"); assert(r@ =~= escape_char_spec(c)); }
        r
    }
}

/// Escapes a string for inclusion inside a JSON string literal.
pub fn escape_json_string(s: &str) -> (r: String)
    ensures
        r@ == escape_spec(s@),
{
    let n = s.unicode_len();
    let mut out = String::new();
    let mut i: usize = 0;
    proof { assert(s@.take(0) =~= Seq::<char>::empty()); }
    while i < n
        invariant
            n == s@.len(),
            i <= n,
            out@ == escape_spec(s@.take(i as int)),
        decreases n - i,
    {
        let c = s.get_char(i);
        if c == '"' || c == '\\' || (c as u32) < 0x20 {
            let e = escaped_char(c);
            out.append(e.as_str());
        } else {
            out.append(s.substring_char(i, i + 1));
            proof {
                assert(s@.subrange(i as int, i as int + 1) =~= seq![s@[i as int]]);
                assert(escape_char_spec(c) =~= seq![c]);
            }
        }
        proof {
            lemma_escape_push(s@.take(i as int), s@[i as int]);
            assert(s@.take(i as int).push(s@[i as int]) =~= s@.take(i as int + 1));
        }
        i = i + 1;
    }
    proof { assert(s@.take(n as int) =~= s@); }
    out
}

/// The canonical text of a JSON value: the value serialized with no extra
/// whitespace, strings escaped, numbers kept verbatim.
pub open spec fn render_spec(v: JsonValue) -> Seq<char>
    decreases v, 0int,
{
    match v {
        JsonValue::Null => seq!['n', 'u', 'l', 'l'],
        JsonValue::Bool(b) => if b { seq!['t', 'r', 'u', 'e'] } else { seq!['f', 'a', 'l', 's', 'e'] },
        JsonValue::Num(text) => text@,
        JsonValue::Str(s) => seq!['"'] + escape_spec(s@) + seq!['"'],
        JsonValue::Arr(items) => seq!['['] + render_items_spec(items@, 0) + seq![']'],
        JsonValue::Obj(fields) => seq!['{'] + render_fields_spec(fields@, 0) + seq!['}'],
    }
}

/// The rendering of `items[i..]`, comma-separated.
pub open spec fn render_items_spec(items: Seq<JsonValue>, i: int) -> Seq<char>
    decreases items, items.len() - i,
{
    if i < 0 || i >= items.len() {
        Seq::empty()
    } else if i + 1 < items.len() {
        render_spec(items[i]) + seq![','] + render_items_spec(items, i + 1)
    } else {
        render_spec(items[i])
    }
}

/// The rendering of `fields[i..]` as `"key":value` pairs, comma-separated.
pub open spec fn render_fields_spec(fields: Seq<(String, JsonValue)>, i: int) -> Seq<char>
    decreases fields, fields.len() - i,
{
    if i < 0 || i >= fields.len() {
        Seq::empty()
    } else if i + 1 < fields.len() {
        seq!['"'] + escape_spec(fields[i].0@) + seq!['"', ':'] + render_spec(fields[i].1)
            + seq![','] + render_fields_spec(fields, i + 1)
    } else {
        seq!['"'] + escape_spec(fields[i].0@) + seq!['"', ':'] + render_spec(fields[i].1)
    }
}

/// Renders a JSON value to its canonical text.
pub fn render(v: &JsonValue) -> (r: String)
    ensures
        r@ == render_spec(*v),
    decreases *v, 0int,
{
    match v {
        JsonValue::Null => {
            let r = String::from_str("null");
            proof { reveal_strlit("null"); assert(r@ =~= render_spec(*v)); }
            r
        }
        JsonValue::Bool(b) => {
            if *b {
                let r = String::from_str("true");
                proof { reveal_strlit("true"); assert(r@ =~= render_spec(*v)); }
                r
            } else {
                let r = String::from_str("false");
                proof { reveal_strlit("false"); assert(r@ =~= render_spec(*v)); }
                r
            }
        }
        JsonValue::Num(text) => {
            let r = text.clone();
            r
        }
        JsonValue::Str(s) => {
            let mut out = String::from_str("\"");
            let e = escape_json_string(s.as_str());
            out.append(e.as_str());
            out.append("\"");
            proof { reveal_strlit("\""); assert(out@ =~= render_spec(*v)); }
            out
        }
        JsonValue::Arr(items) => {
            let mut out = String::from_str("[");
            let rest = render_items(items, 0);
            out.append(rest.as_str());
            out.append("]");
            proof { reveal_strlit("["); reveal_strlit("]"); assert(out@ =~= render_spec(*v)); }
            out
        }
        JsonValue::Obj(fields) => {
            let mut out = String::from_str("{");
            let rest = render_fields(fields, 0);
            out.append(rest.as_str());
            out.append("}");
            proof { reveal_strlit("{"); reveal_strlit("}"); assert(out@ =~= render_spec(*v)); }
            out
        }
    }
}

fn render_items(items: &Vec<JsonValue>, i: usize) -> (r: String)
    ensures
        r@ == render_items_spec(items@, i as int),
    decreases items@, items@.len() - i,
{
    if i >= items.len() {
        String::new()
    } else {
        let mut out = render(&items[i]);
        if i + 1 < items.len() {
            out.append(",");
            let rest = render_items(items, i + 1);
            out.append(rest.as_str());
        }
        proof { reveal_strlit(","); assert(out@ =~= render_items_spec(items@, i as int)); }
        out
    }
}

fn render_fields(fields: &Vec<(String, JsonValue)>, i: usize) -> (r: String)
    ensures
        r@ == render_fields_spec(fields@, i as int),
    decreases fields@, fields@.len() - i,
{
    if i >= fields.len() {
        String::new()
    } else {
        let mut out = String::from_str("\"");
        let key = escape_json_string(fields[i].0.as_str());
        out.append(key.as_str());
        out.append("\":");
        let val = render(&fields[i].1);
        out.append(val.as_str());
        if i + 1 < fields.len() {
            out.append(",");
            let rest = render_fields(fields, i + 1);
            out.append(rest.as_str());
        }
        proof {
            reveal_strlit("\""); reveal_strlit("\":"); reveal_strlit(",");
            assert(out@ =~= render_fields_spec(fields@, i as int));
        }
        out
    }
}

/// The value under `key` in an object, first occurrence; `Null` when `v` is
/// not an object or the key is absent.
pub open spec fn fields_lookup(fields: Seq<(String, JsonValue)>, key: Seq<char>) -> JsonValue
    decreases fields.len(),
{
    if fields.len() == 0 {
        JsonValue::Null
    } else if fields[0].0@ == key {
        fields[0].1
    } else {
        fields_lookup(fields.drop_first(), key)
    }
}

pub open spec fn key_of(v: JsonValue, key: Seq<char>) -> JsonValue {
    match v {
        JsonValue::Obj(fields) => fields_lookup(fields@, key),
        _ => JsonValue::Null,
    }
}

/// The element at index `i` of an array; `Null` when `v` is not an array or
/// the index is out of range, so an empty array and a missing element read
/// the same way.
pub open spec fn index_of(v: JsonValue, i: int) -> JsonValue {
    match v {
        JsonValue::Arr(items) => if 0 <= i < items@.len() { items@[i] } else { JsonValue::Null },
        _ => JsonValue::Null,
    }
}

/// Character-by-character string equality.
pub fn str_eq(a: &str, b: &str) -> (r: bool)
    ensures
        r == (a@ == b@),
{
    let na = a.unicode_len();
    let nb = b.unicode_len();
    if na != nb {
        return false;
    }
    let mut i: usize = 0;
    while i < na
        invariant
            na == a@.len(),
            nb == b@.len(),
            na == nb,
            i <= na,
            forall|j: int| 0 <= j < i ==> a@[j] == b@[j],
        decreases na - i,
    {
        let ca = a.get_char(i);
        let cb = b.get_char(i);
        if ca != cb {
            return false;
        }
        i = i + 1;
    }
    proof { assert(a@ =~= b@); }
    true
}

/// Looks up `key` in `v`, when `v` is an object holding it.
pub fn get_key<'a>(v: &'a JsonValue, key: &str) -> (r: Option<&'a JsonValue>)
    ensures
        match r {
            Some(x) => key_of(*v, key@) == *x,
            None => key_of(*v, key@) == JsonValue::Null,
        },
{
    match v {
        JsonValue::Obj(fields) => {
            let n = fields.len();
            let mut j: usize = 0;
            proof { assert(fields@.skip(0) =~= fields@); }
            while j < n
                invariant
                    n == fields@.len(),
                    j <= n,
                    key_of(*v, key@) == fields_lookup(fields@.skip(j as int), key@),
                decreases n - j,
            {
                proof {
                    assert(fields@.skip(j as int)[0] == fields@[j as int]);
                    assert(fields@.skip(j as int).drop_first() =~= fields@.skip(j as int + 1));
                }
                if str_eq(fields[j].0.as_str(), key) {
                    proof {
                        assert(fields@[j as int].0@ == key@);
                        assert(fields_lookup(fields@.skip(j as int), key@) == fields@[j as int].1);
                    }
                    return Some(&fields[j].1);
                }
                j = j + 1;
            }
            proof { assert(fields@.skip(n as int) =~= Seq::<(String, JsonValue)>::empty()); }
            None
        }
        _ => None,
    }
}

/// The element at index `i`, when `v` is an array long enough.
pub fn get_index<'a>(v: &'a JsonValue, i: usize) -> (r: Option<&'a JsonValue>)
    ensures
        match r {
            Some(x) => index_of(*v, i as int) == *x,
            None => index_of(*v, i as int) == JsonValue::Null,
        },
{
    match v {
        JsonValue::Arr(items) => {
            if i < items.len() {
                Some(&items[i])
            } else {
                None
            }
        }
        _ => None,
    }
}

} // verus!
