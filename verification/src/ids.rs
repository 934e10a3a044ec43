//! Namespaced tool identifiers (`<tool>:<namespace>:<item>`).

use vstd::prelude::*;

verus! {

/// Whether splitting `s` at every `:` yields an empty segment (this includes
/// the empty string itself).
pub open spec fn has_empty_segment(s: Seq<char>) -> bool {
    ||| s.len() == 0
    ||| s[0] == ':'
    ||| s[s.len() - 1] == ':'
    ||| exists|i: int| 0 <= i < s.len() - 1 && s[i] == ':' && #[trigger] s[i + 1] == ':'
}

/// A tool id is valid when it has at least two `:`-separated segments and
/// none of them is empty.
pub open spec fn is_valid_tool_id(s: Seq<char>) -> bool {
    &&& !has_empty_segment(s)
    &&& s.contains(':')
}

/// A namespaced tool identifier; always valid by construction.
#[derive(Debug, PartialEq, Eq)]
pub struct ToolId {
    id: String,
}

/// Why a string is not a valid [`ToolId`].
#[derive(Debug, Clone, PartialEq, Eq)]
pub struct ToolIdError {
    /// The rejected text.
    pub rejected: String,
}

impl View for ToolId {
    type V = Seq<char>;

    closed spec fn view(&self) -> Seq<char> {
        self.id@
    }
}

impl Clone for ToolId {
    fn clone(&self) -> (r: Self)
        ensures
            r@ == self@,
    {
        ToolId { id: self.id.clone() }
    }
}

impl ToolId {
    /// The well-formedness of a tool id.
    pub open spec fn wf(&self) -> bool {
        is_valid_tool_id(self@)
    }

    /// Validate and wrap `text`.
    pub fn new(text: &str) -> (r: Result<ToolId, ToolIdError>)
        ensures
            r is Ok <==> is_valid_tool_id(text@),
            r matches Ok(id) ==> id@ == text@ && id.wf(),
            r matches Err(e) ==> e.rejected@ == text@,
    {
        if check_tool_id(text) {
            Ok(ToolId { id: text.to_owned() })
        } else {
            Err(ToolIdError { rejected: text.to_owned() })
        }
    }

    /// The id as text.
    pub fn as_str(&self) -> (r: &str)
        ensures
            r@ == self@,
    {
        self.id.as_str()
    }
}

/// Executable check of [`is_valid_tool_id`].
pub fn check_tool_id(text: &str) -> (r: bool)
    ensures
        r == is_valid_tool_id(text@),
{
    let n = text.unicode_len();
    if n == 0 {
        return false;
    }
    let mut i: usize = 0;
    let mut prev_colon = false;
    let mut saw_colon = false;
    while i < n
        invariant
            n == text@.len(),
            n > 0,
            i <= n,
            prev_colon == (i > 0 && text@[i - 1] == ':'),
            saw_colon == (exists|j: int| 0 <= j < i && text@[j] == ':'),
            i > 0 ==> text@[0] != ':',
            forall|j: int| 0 <= j < i - 1 ==> !(text@[j] == ':' && #[trigger] text@[j + 1] == ':'),
        decreases n - i,
    {
        let c = text.get_char(i);
        if c == ':' {
            if i == 0 || prev_colon {
                proof {
                    if i > 0 {
                        assert(text@[i - 1] == ':' && text@[(i - 1) + 1] == ':');
                    }
                }
                return false;
            }
            saw_colon = true;
            prev_colon = true;
        } else {
            prev_colon = false;
        }
        i = i + 1;
    }
    if prev_colon {
        return false;
    }
    proof {
        assert(!has_empty_segment(text@));
        if saw_colon {
            let j = choose|j: int| 0 <= j < n && text@[j] == ':';
            assert(text@.contains(':'));
        } else {
            assert(!text@.contains(':'));
        }
    }
    saw_colon
}

/// Provider tool names are dotted (`mock.echo`); dots become colons.
pub open spec fn dots_to_colons(s: Seq<char>) -> Seq<char> {
    s.map_values(|c: char| if c == '.' { ':' } else { c })
}

/// The tool id a provider tool name maps to: the name with dots replaced by
/// colons, or, when that has fewer than two segments, the same prefixed with
/// the `provider` namespace.
pub open spec fn mangled_id(name: Seq<char>) -> Seq<char> {
    let m = dots_to_colons(name);
    if is_valid_tool_id(m) {
        m
    } else {
        "provider:"@ + m
    }
}

/// Mangle a provider tool name into a valid [`ToolId`]: dots become colons
/// (`mock.echo` → `mock:echo`); names with fewer than two segments get a
/// `provider` namespace prefix.
///
/// Names whose segments (split at `.` and `:`) include an empty one cannot be
/// made into an id and are left out by `requires`.
pub fn mangle_tool_id(name: &str) -> (r: ToolId)
    requires
        !has_empty_segment(dots_to_colons(name@)),
    ensures
        r@ == mangled_id(name@),
        r.wf(),
        !r@.contains('.'),
{
    let n = name.unicode_len();
    let mut mangled = String::new();
    let mut i: usize = 0;
    while i < n
        invariant
            n == name@.len(),
            i <= n,
            mangled@ == dots_to_colons(name@.subrange(0, i as int)),
        decreases n - i,
    {
        let piece = name.substring_char(i, i + 1);
        proof {
            reveal_strlit(":");
        }
        if name.get_char(i) == '.' {
            mangled.append(":");
        } else {
            mangled.append(piece);
        }
        assert(name@.subrange(0, i + 1) =~= name@.subrange(0, i as int).push(name@[i as int]));
        assert(mangled@ =~= dots_to_colons(name@.subrange(0, i + 1)));
        i = i + 1;
    }
    assert(name@.subrange(0, n as int) =~= name@);
    proof {
        law_mangle_replaces_every_dot(name@);
    }
    match ToolId::new(mangled.as_str()) {
        Ok(id) => id,
        Err(_) => {
            let mut prefixed = String::new();
            proof {
                reveal_strlit("provider:");
            }
            prefixed.append("provider:");
            prefixed.append(mangled.as_str());
            proof {
                prefixed_is_valid(mangled@);
            }
            ToolId { id: prefixed }
        },
    }
}

/// A provider tool name that is already a valid tool id and has no dots is
/// its own tool id (`lonis:builtin:echo` stays `lonis:builtin:echo`), and
/// mangling any admissible name gives a valid tool id.
pub proof fn law_mangle_keeps_valid_ids(name: Seq<char>)
    requires
        !has_empty_segment(dots_to_colons(name)),
    ensures
        is_valid_tool_id(mangled_id(name)),
        is_valid_tool_id(name) && !name.contains('.') ==> mangled_id(name) == name,
{
    prefixed_is_valid(dots_to_colons(name));
    if !name.contains('.') {
        assert forall|i: int| 0 <= i < name.len() implies dots_to_colons(name)[i] == name[i] by {
            if name[i] == '.' {
                assert(name.contains('.'));
            }
        }
        assert(dots_to_colons(name) =~= name);
    }
}

/// Mangling turns every dot into a colon and keeps every other character:
/// `dots_to_colons(name)` has the name's length, a `:` wherever the name
/// has a `.`, the name's own character elsewhere, and no dot at all; so the
/// mangled id holds no dot either.
pub proof fn law_mangle_replaces_every_dot(name: Seq<char>)
    ensures
        dots_to_colons(name).len() == name.len(),
        forall|i: int| 0 <= i < name.len() && name[i] == '.' ==> #[trigger] dots_to_colons(name)[i] == ':',
        forall|i: int|
            0 <= i < name.len() && name[i] != '.' ==> #[trigger] dots_to_colons(name)[i] == name[i],
        !dots_to_colons(name).contains('.'),
        !mangled_id(name).contains('.'),
{
    let d = dots_to_colons(name);
    assert(!d.contains('.')) by {
        if d.contains('.') {
            let i = choose|i: int| 0 <= i < d.len() && d[i] == '.';
            assert(d[i] == (if name[i] == '.' { ':' } else { name[i] }));
        }
    }
    if !is_valid_tool_id(d) {
        reveal_strlit("provider:");
        let m = "provider:"@ + d;
        if m.contains('.') {
            let i = choose|i: int| 0 <= i < m.len() && m[i] == '.';
            if i < 9 {
                assert(m[i] == "provider:"@[i]);
            } else {
                assert(m[i] == d[i - 9]);
            }
        }
    }
}

/// Prefixing a name without empty segments by `provider:` gives a valid id.
proof fn prefixed_is_valid(m: Seq<char>)
    requires
        !has_empty_segment(m),
    ensures
        is_valid_tool_id("provider:"@ + m),
{
    reveal_strlit("provider:");
    let p = "provider:"@;
    let s = p + m;
    assert(p.len() == 9);
    assert(s[8] == ':');
    assert(s.contains(':'));
    assert(s[s.len() - 1] == m[m.len() - 1]);
    assert forall|i: int| 0 <= i < s.len() - 1 && s[i] == ':' implies #[trigger] s[i + 1] != ':' by {
        if i < 8 {
            assert(s[i] == p[i]);
        } else if i == 8 {
            assert(s[i + 1] == m[0]);
        } else {
            assert(s[i] == m[i - 9]);
            assert(s[i + 1] == m[i - 9 + 1]);
        }
    }
}

} // verus!
