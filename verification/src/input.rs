//! Reading a tool's JSON input from the command line: an inline JSON value,
//! an `@<path>` file reference, or stdin (where empty input is `null`).

use vstd::prelude::*;

use crate::json::{json_error_text, json_null, json_text_parses, json_value_of, parse_json};

verus! {

/// Whether `c` has the Unicode `White_Space` property: the ASCII controls
/// tab to carriage return, space, NEL, NBSP, OGHAM SPACE MARK, the spaces
/// U+2000 to U+200A, the line and paragraph separators, NNBSP, MMSP and the
/// ideographic space.
pub open spec fn is_whitespace_char(c: char) -> bool {
    let u = c as u32;
    ||| 0x09 <= u && u <= 0x0D
    ||| u == 0x20
    ||| u == 0x85
    ||| u == 0xA0
    ||| u == 0x1680
    ||| 0x2000 <= u && u <= 0x200A
    ||| u == 0x2028
    ||| u == 0x2029
    ||| u == 0x202F
    ||| u == 0x205F
    ||| u == 0x3000
}

fn is_whitespace(c: char) -> (r: bool)
    ensures
        r == is_whitespace_char(c),
{
    let u = c as u32;
    (0x09 <= u && u <= 0x0D) || u == 0x20 || u == 0x85 || u == 0xA0 || u == 0x1680 || (0x2000
        <= u && u <= 0x200A) || u == 0x2028 || u == 0x2029 || u == 0x202F || u == 0x205F || u
        == 0x3000
}

/// `s` without its leading whitespace.
pub open spec fn trim_start(s: Seq<char>) -> Seq<char>
    decreases s.len(),
{
    if s.len() > 0 && is_whitespace_char(s[0]) {
        trim_start(s.drop_first())
    } else {
        s
    }
}

/// `s` without its trailing whitespace.
pub open spec fn trim_end(s: Seq<char>) -> Seq<char>
    decreases s.len(),
{
    if s.len() > 0 && is_whitespace_char(s.last()) {
        trim_end(s.drop_last())
    } else {
        s
    }
}

/// `s` without leading and trailing whitespace.
pub open spec fn trimmed(s: Seq<char>) -> Seq<char> {
    trim_end(trim_start(s))
}

/// The text without leading and trailing whitespace (as `str::trim`).
pub fn trim_text(s: &str) -> (r: &str)
    ensures
        r@ == trimmed(s@),
        r@.len() > 0 ==> !is_whitespace_char(r@[0]) && !is_whitespace_char(r@[r@.len() - 1]),
{
    let n = s.unicode_len();
    let mut start: usize = 0;
    assert(s@.subrange(0, n as int) =~= s@);
    while start < n && is_whitespace(s.get_char(start))
        invariant
            n == s@.len(),
            start <= n,
            trim_start(s@) == trim_start(s@.subrange(start as int, n as int)),
        decreases n - start,
    {
        let ghost sub = s@.subrange(start as int, n as int);
        assert(sub.drop_first() =~= s@.subrange(start + 1, n as int));
        start = start + 1;
    }
    let ghost t1 = s@.subrange(start as int, n as int);
    assert(trim_start(s@) == t1);
    let mut end: usize = n;
    while end > start && is_whitespace(s.get_char(end - 1))
        invariant
            n == s@.len(),
            start <= end <= n,
            start < n ==> !is_whitespace_char(s@[start as int]),
            trim_end(t1) == trim_end(s@.subrange(start as int, end as int)),
        decreases end - start,
    {
        let ghost sub = s@.subrange(start as int, end as int);
        assert(sub.drop_last() =~= s@.subrange(start as int, end - 1));
        end = end - 1;
    }
    let r = s.substring_char(start, end);
    assert(r@ =~= s@.subrange(start as int, end as int));
    r
}

/// Where `lonis call` reads its input from.
#[derive(Debug, PartialEq, Eq)]
pub enum InputSource {
    /// A JSON file (`@<path>`).
    File(String),
    /// An inline JSON value.
    Inline(String),
    /// Standard input.
    Stdin,
}

/// Classify the optional input argument: `@<path>` names a file, any other
/// text is inline JSON, and no argument means stdin.
pub fn input_source(input: Option<&str>) -> (r: InputSource)
    ensures
        match input {
            None => r == InputSource::Stdin,
            Some(t) => if t@.len() > 0 && t@[0] == '@' {
                r matches InputSource::File(p) && p@ == t@.drop_first()
            } else {
                r matches InputSource::Inline(x) && x@ == t@
            },
        },
{
    match input {
        None => InputSource::Stdin,
        Some(text) => {
            let n = text.unicode_len();
            if n > 0 && text.get_char(0) == '@' {
                let path = text.substring_char(1, n);
                assert(path@ =~= text@.drop_first());
                InputSource::File(path.to_owned())
            } else {
                InputSource::Inline(text.to_owned())
            }
        },
    }
}

/// Parse an inline JSON argument.
pub fn parse_inline_input(text: &str) -> (r: Result<serde_json::Value, String>)
    ensures
        r is Ok <==> json_text_parses(text@),
        r matches Ok(v) ==> v == json_value_of(text@),
        r matches Err(d) ==> d@ == json_error_text(text@),
{
    parse_json(text)
}

/// Parse the contents of an input file (surrounding whitespace ignored).
pub fn parse_file_input(contents: &str) -> (r: Result<serde_json::Value, String>)
    ensures
        r is Ok <==> json_text_parses(trimmed(contents@)),
        r matches Ok(v) ==> v == json_value_of(trimmed(contents@)),
        r matches Err(d) ==> d@ == json_error_text(trimmed(contents@)),
{
    parse_json(trim_text(contents))
}

/// The input a mock tool reads from its stdin text: the JSON value of the
/// trimmed text, or `null` when that is not JSON.
pub fn mock_input(text: &str) -> (r: serde_json::Value)
    ensures
        json_text_parses(trimmed(text@)) ==> r == json_value_of(trimmed(text@)),
        !json_text_parses(trimmed(text@)) ==> r == json_value_of("null"@),
{
    match parse_json(trim_text(text)) {
        Ok(value) => value,
        Err(_) => json_null(),
    }
}

/// Parse what was read from stdin: blank input is `null`, anything else
/// must be one JSON value.
pub fn parse_stdin_input(text: &str) -> (r: Result<serde_json::Value, String>)
    ensures
        trimmed(text@).len() == 0 ==> r == Ok::<serde_json::Value, String>(
            json_value_of("null"@),
        ),
        trimmed(text@).len() > 0 ==> (r is Ok <==> json_text_parses(trimmed(text@))),
        trimmed(text@).len() > 0 ==> (r matches Ok(v) ==> v == json_value_of(trimmed(text@))),
        trimmed(text@).len() > 0 ==> (r matches Err(d) ==> d@ == json_error_text(trimmed(text@))),
{
    let t = trim_text(text);
    if t.unicode_len() == 0 {
        Ok(json_null())
    } else {
        parse_json(t)
    }
}

} // verus!
