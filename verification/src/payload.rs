//! Naming of vertical payload kinds: the kind tag of a payload variant, its
//! schema id, and its default human rendering (the logic behind the
//! payload derive).

use vstd::prelude::*;

use crate::text::str_eq;

verus! {

/// Whether `c` has the Unicode `Uppercase` property.
pub uninterp spec fn is_uppercase_char(c: char) -> bool;

/// The lowercase mapping of `c` (one or more characters).
pub uninterp spec fn lowercase_of(c: char) -> Seq<char>;

/// Calls `char::is_uppercase`. Its contract names the result and states the
/// ASCII case, which the documentation of the function gives: among ASCII
/// characters exactly `A`..=`Z` are uppercase.
#[verifier::external_body]
pub(crate) fn char_is_uppercase(c: char) -> (r: bool)
    ensures
        r == is_uppercase_char(c),
        (c as u32) < 128 ==> (r <==> ('A' <= c && c <= 'Z')),
{
    c.is_uppercase()
}

/// Calls `char::to_lowercase`, collecting the characters it yields. Its
/// contract names the result and states the ASCII case from the
/// documentation: an ASCII character maps to its ASCII lowercase form.
#[verifier::external_body]
pub(crate) fn char_to_lowercase(c: char) -> (r: String)
    ensures
        r@ == lowercase_of(c),
        (c as u32) < 128 ==> r@ == seq![
            if 'A' <= c && c <= 'Z' {
                ((c as u32) + 32) as char
            } else {
                c
            },
        ],
{
    c.to_lowercase().collect::<String>()
}

/// `SearchResults` → `search_results`: each uppercase character becomes its
/// lowercase form, preceded by `_` unless it is the first character.
pub open spec fn snake_case(s: Seq<char>) -> Seq<char>
    decreases s.len(),
{
    if s.len() == 0 {
        Seq::empty()
    } else {
        let prev = snake_case(s.drop_last());
        let c = s.last();
        if is_uppercase_char(c) {
            if s.len() > 1 {
                prev + seq!['_'] + lowercase_of(c)
            } else {
                prev + lowercase_of(c)
            }
        } else {
            prev.push(c)
        }
    }
}

/// Whether every character of `s` is ASCII.
pub open spec fn is_ascii_text(s: Seq<char>) -> bool {
    forall|i: int| 0 <= i < s.len() ==> (#[trigger] s[i] as u32) < 128
}

/// [`snake_case`] of an ASCII name: each of `A`..=`Z` becomes its lowercase
/// letter, preceded by `_` unless it is the first character.
pub open spec fn ascii_snake_case(s: Seq<char>) -> Seq<char>
    decreases s.len(),
{
    if s.len() == 0 {
        Seq::empty()
    } else {
        let prev = ascii_snake_case(s.drop_last());
        let c = s.last();
        if 'A' <= c && c <= 'Z' {
            let lower = ((c as u32) + 32) as char;
            if s.len() > 1 {
                prev + seq!['_', lower]
            } else {
                prev.push(lower)
            }
        } else {
            prev.push(c)
        }
    }
}

/// Convert a variant name to snake case.
pub fn to_snake_case(name: &str) -> (r: String)
    ensures
        r@ == snake_case(name@),
        is_ascii_text(name@) ==> r@ == ascii_snake_case(name@),
{
    let n = name.unicode_len();
    let mut out = String::new();
    let mut i: usize = 0;
    while i < n
        invariant
            n == name@.len(),
            i <= n,
            out@ == snake_case(name@.subrange(0, i as int)),
            is_ascii_text(name@.subrange(0, i as int)) ==> out@ == ascii_snake_case(
                name@.subrange(0, i as int),
            ),
        decreases n - i,
    {
        let c = name.get_char(i);
        let ghost before = name@.subrange(0, i as int);
        let ghost after = name@.subrange(0, i + 1);
        assert(after.drop_last() =~= before);
        assert(after.last() == c);
        proof {
            if is_ascii_text(after) {
                assert(is_ascii_text(before)) by {
                    assert forall|j: int| 0 <= j < before.len() implies (#[trigger] before[j] as u32)
                        < 128 by {
                        assert(before[j] == after[j]);
                    }
                }
                assert((after[i as int] as u32) < 128);
            }
        }
        if char_is_uppercase(c) {
            if i > 0 {
                proof {
                    reveal_strlit("_");
                }
                out.append("_");
            }
            let lower = char_to_lowercase(c);
            out.append(lower.as_str());
            assert(out@ =~= snake_case(after));
            proof {
                if is_ascii_text(after) {
                    assert(out@ =~= ascii_snake_case(after));
                }
            }
        } else {
            let piece = name.substring_char(i, i + 1);
            out.append(piece);
            assert(out@ =~= snake_case(after));
            proof {
                if is_ascii_text(after) {
                    assert(out@ =~= ascii_snake_case(after));
                }
            }
        }
        i = i + 1;
    }
    assert(name@.subrange(0, n as int) =~= name@);
    out
}

/// The characters a payload namespace may hold: lowercase ASCII letters,
/// digits, `.`, `-` and `_`.
pub open spec fn is_namespace_char(c: char) -> bool {
    ('a' <= c && c <= 'z') || ('0' <= c && c <= '9') || c == '.' || c == '-' || c == '_'
}

/// A payload namespace is canonical when it is non-empty and made of
/// namespace characters only.
pub open spec fn is_canonical_namespace(ns: Seq<char>) -> bool {
    ns.len() > 0 && forall|i: int| 0 <= i < ns.len() ==> is_namespace_char(#[trigger] ns[i])
}

/// Whether `ns` is a canonical payload namespace.
pub fn check_namespace(ns: &str) -> (r: bool)
    ensures
        r == is_canonical_namespace(ns@),
{
    let n = ns.unicode_len();
    if n == 0 {
        return false;
    }
    let mut i: usize = 0;
    while i < n
        invariant
            n == ns@.len(),
            i <= n,
            forall|j: int| 0 <= j < i ==> is_namespace_char(#[trigger] ns@[j]),
        decreases n - i,
    {
        let c = ns.get_char(i);
        if !(('a' <= c && c <= 'z') || ('0' <= c && c <= '9') || c == '.' || c == '-' || c
            == '_') {
            return false;
        }
        i = i + 1;
    }
    true
}

/// The message rejecting a non-canonical namespace.
pub open spec fn bad_namespace_message() -> Seq<char> {
    "payload namespace must be non-empty lowercase ASCII (digits, `.`, `-`, `_` allowed)"@
}

/// Validate an optional payload namespace.
pub fn validate_namespace(ns: Option<&str>) -> (r: Result<(), String>)
    ensures
        match ns {
            None => r is Ok,
            Some(n) => if is_canonical_namespace(n@) {
                r is Ok
            } else {
                r matches Err(m) && m@ == bad_namespace_message()
            },
        },
{
    match ns {
        None => Ok(()),
        Some(n) => {
            if check_namespace(n) {
                Ok(())
            } else {
                Err(
                    "payload namespace must be non-empty lowercase ASCII (digits, `.`, `-`, `_` allowed)".to_owned(),
                )
            }
        },
    }
}

/// Why the input of the payload derive is refused, before its attributes
/// are read: generics first, then anything that is not an enum.
pub fn payload_input_error(has_generics: bool, is_enum: bool) -> (r: Option<String>)
    ensures
        has_generics ==> (r matches Some(m) && m@
            == "`#[derive(BlockPayload)]` does not support generics"@),
        !has_generics && !is_enum ==> (r matches Some(m) && m@
            == "`#[derive(BlockPayload)]` requires an enum of payload variants"@),
        !has_generics && is_enum ==> r is None,
{
    if has_generics {
        Some("`#[derive(BlockPayload)]` does not support generics".to_owned())
    } else if !is_enum {
        Some("`#[derive(BlockPayload)]` requires an enum of payload variants".to_owned())
    } else {
        None
    }
}

/// The keys `#[lonis_payload(..)]` accepts.
#[derive(Clone, Copy, Debug, PartialEq, Eq, Structural)]
pub enum PayloadAttrKey {
    /// `namespace = "<ns>"`.
    Namespace,
    /// `render_fn = "<path>"`.
    RenderFn,
}

/// Classify one key of `#[lonis_payload(..)]`; any other key is refused.
pub fn payload_attr_key(key: &str) -> (r: Result<PayloadAttrKey, String>)
    ensures
        key@ == "namespace"@ ==> r == Ok::<PayloadAttrKey, String>(PayloadAttrKey::Namespace),
        key@ == "render_fn"@ ==> r == Ok::<PayloadAttrKey, String>(PayloadAttrKey::RenderFn),
        key@ != "namespace"@ && key@ != "render_fn"@ ==> (r matches Err(m) && m@
            == "unsupported `lonis_payload` key (expected `namespace` or `render_fn`)"@),
{
    proof {
        reveal_strlit("namespace");
        reveal_strlit("render_fn");
        assert("namespace"@[0] != "render_fn"@[0]);
    }
    if str_eq(key, "namespace") {
        Ok(PayloadAttrKey::Namespace)
    } else if str_eq(key, "render_fn") {
        Ok(PayloadAttrKey::RenderFn)
    } else {
        Err("unsupported `lonis_payload` key (expected `namespace` or `render_fn`)".to_owned())
    }
}

/// The refusal of a tuple variant by the payload derive.
pub fn tuple_variant_error() -> (r: String)
    ensures
        r@ == "`#[derive(BlockPayload)]` does not support tuple variants; use struct variants"@,
{
    "`#[derive(BlockPayload)]` does not support tuple variants; use struct variants".to_owned()
}

/// The kind tag of a payload variant: its snake-case name, prefixed by the
/// namespace and a `.` when there is one.
pub open spec fn kind_tag(namespace: Option<Seq<char>>, variant: Seq<char>) -> Seq<char> {
    match namespace {
        Some(ns) => ns + seq!['.'] + snake_case(variant),
        None => snake_case(variant),
    }
}

/// Kind tags are namespaced so that kinds never collide across verticals:
/// two namespaced tags whose snake-cased variant parts hold no `.` are equal
/// only when their namespaces and variant parts are.
pub proof fn law_namespaced_kinds_never_collide(
    n1: Seq<char>,
    v1: Seq<char>,
    n2: Seq<char>,
    v2: Seq<char>,
)
    requires
        !snake_case(v1).contains('.'),
        !snake_case(v2).contains('.'),
        kind_tag(Some(n1), v1) == kind_tag(Some(n2), v2),
    ensures
        n1 == n2,
        snake_case(v1) == snake_case(v2),
{
    let s1 = snake_case(v1);
    let s2 = snake_case(v2);
    let t = kind_tag(Some(n1), v1);
    assert(t == n1 + seq!['.'] + s1);
    assert(t == n2 + seq!['.'] + s2);
    assert(t[n1.len() as int] == '.');
    assert(t[n2.len() as int] == '.');
    if n1.len() < n2.len() {
        let k = n2.len() - n1.len() - 1;
        assert(t[n2.len() as int] == s1[k]);
        assert(s1.contains('.'));
    }
    if n2.len() < n1.len() {
        let k = n1.len() - n2.len() - 1;
        assert(t[n1.len() as int] == s2[k]);
        assert(s2.contains('.'));
    }
    assert(n1.len() == n2.len());
    assert(n1 =~= t.subrange(0, n1.len() as int));
    assert(n2 =~= t.subrange(0, n2.len() as int));
    assert(s1 =~= t.subrange(n1.len() as int + 1, t.len() as int));
    assert(s2 =~= t.subrange(n2.len() as int + 1, t.len() as int));
}

/// The kind tag of a payload variant (`Search` + `karpal` →
/// `karpal.search`).
pub fn payload_kind_name(namespace: Option<&str>, variant: &str) -> (r: String)
    ensures
        r@ == kind_tag(
            match namespace {
                Some(ns) => Some(ns@),
                None => None,
            },
            variant@,
        ),
{
    let snake = to_snake_case(variant);
    match namespace {
        Some(ns) => {
            let mut out = ns.to_owned();
            proof {
                reveal_strlit(".");
            }
            out.append(".");
            out.append(snake.as_str());
            out
        },
        None => snake,
    }
}

/// The schema id of a payload kind: `lonis.block/<kind>/v1`.
pub fn payload_schema_id(kind: &str) -> (r: String)
    ensures
        r@ == "lonis.block/"@ + kind@ + "/v1"@,
{
    let mut out = String::new();
    out.append("lonis.block/");
    out.append(kind);
    out.append("/v1");
    out
}

/// The default human rendering of a payload: `<kind>: <debug form>`.
pub fn render_human_default(kind: &str, debug_form: &str) -> (r: String)
    ensures
        r@ == kind@ + ": "@ + debug_form@,
{
    let mut out = kind.to_owned();
    out.append(": ");
    out.append(debug_form);
    out
}

} // verus!
