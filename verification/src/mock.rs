//! The decisions of the mock provider used to exercise the subprocess seam
//! through a real process boundary: which subcommand or behaviour its
//! arguments select. Reading stdin and writing the outputs is the host
//! program's part.

use vstd::prelude::*;

use crate::text::{str_eq, texts};

verus! {

/// The arguments without every `--mode <x>` pair (a trailing `--mode` is
/// dropped too).
pub open spec fn strip_mode(args: Seq<Seq<char>>) -> Seq<Seq<char>>
    decreases args.len(),
{
    if args.len() == 0 {
        Seq::empty()
    } else if args[0] == "--mode"@ {
        if args.len() >= 2 {
            strip_mode(args.skip(2))
        } else {
            Seq::empty()
        }
    } else {
        seq![args[0]] + strip_mode(args.drop_first())
    }
}

/// Remove the global `--mode <x>` pairs (providers pass `--mode json`).
pub fn strip_mode_args(args: &Vec<String>) -> (r: Vec<String>)
    ensures
        texts(r@) == strip_mode(texts(args@)),
{
    let ghost all = texts(args@);
    let mut out: Vec<String> = Vec::new();
    let mut i: usize = 0;
    assert(all.skip(0) =~= all);
    assert(texts(out@) + strip_mode(all) =~= strip_mode(all));
    while i < args.len()
        invariant
            all == texts(args@),
            i <= args.len(),
            texts(out@) + strip_mode(all.skip(i as int)) == strip_mode(all),
        decreases args.len() - i,
    {
        let ghost rest = all.skip(i as int);
        assert(rest[0] == args@[i as int]@);
        if str_eq(args[i].as_str(), "--mode") {
            if i + 1 < args.len() {
                assert(rest.skip(2) =~= all.skip(i + 2));
                i = i + 2;
            } else {
                assert(all.skip(i + 1) =~= Seq::<Seq<char>>::empty());
                assert(strip_mode(all.skip(i + 1)) =~= Seq::<Seq<char>>::empty());
                i = i + 1;
            }
        } else {
            assert(rest.drop_first() =~= all.skip(i + 1));
            let ghost before = texts(out@);
            out.push(args[i].clone());
            assert(texts(out@) =~= before + seq![all[i as int]]);
            assert(texts(out@) + strip_mode(all.skip(i + 1)) =~= before + strip_mode(rest));
            i = i + 1;
        }
    }
    assert(strip_mode(all.skip(args@.len() as int)) =~= Seq::<Seq<char>>::empty());
    assert(texts(out@) =~= texts(out@) + Seq::<Seq<char>>::empty());
    out
}

/// What the mock does when invoked as a tool.
#[derive(Debug, PartialEq, Eq)]
pub enum MockMode {
    /// Echo the input in a block array.
    Blocks,
    /// Two blocks, one per line.
    Ndjson,
    /// Plain text.
    Text,
    /// A block of a kind no host knows.
    UnknownKind,
    /// Sleep for the given number of milliseconds (default 5000), then
    /// answer.
    Sleep(Option<String>),
    /// Emit the given number of bytes (default 1 MiB).
    Big(Option<String>),
    /// Fail with a structured error.
    Fail,
    /// Fail with unstructured stderr.
    FailPlain,
    /// Stream the given number of blocks (default 3), one per line.
    Stream(Option<String>),
    /// Stream one block, then fail with a structured error.
    StreamFail,
    /// Stream after sleeping the given number of milliseconds.
    StreamSleep(Option<String>),
    /// An unknown mode.
    Unknown(String),
}

/// What the mock's arguments select.
#[derive(Debug, PartialEq, Eq)]
pub enum MockAction {
    /// Print the provider manifest.
    Manifest,
    /// Print the tools list.
    ToolsList,
    /// Print the contract of `mock.echo`.
    DescribeEcho,
    /// Report `not_found` for this tool name (exit code 3).
    NotFound(String),
    /// Run as a tool in this mode.
    Run(MockMode),
}

/// The run mode a mode flag and its optional argument select.
pub open spec fn mode_matches(flag: Seq<char>, arg: Option<Seq<char>>, m: MockMode) -> bool {
    let arg_text = |o: Option<String>| match o {
        Some(s) => Some(s@),
        None => None,
    };
    if flag == "--blocks"@ {
        m == MockMode::Blocks
    } else if flag == "--ndjson"@ {
        m == MockMode::Ndjson
    } else if flag == "--text"@ {
        m == MockMode::Text
    } else if flag == "--unknown-kind"@ {
        m == MockMode::UnknownKind
    } else if flag == "--sleep"@ {
        m matches MockMode::Sleep(a) && arg_text(a) == arg
    } else if flag == "--big"@ {
        m matches MockMode::Big(a) && arg_text(a) == arg
    } else if flag == "--fail"@ {
        m == MockMode::Fail
    } else if flag == "--fail-plain"@ {
        m == MockMode::FailPlain
    } else if flag == "--stream"@ {
        m matches MockMode::Stream(a) && arg_text(a) == arg
    } else if flag == "--stream-fail"@ {
        m == MockMode::StreamFail
    } else if flag == "--stream-sleep"@ {
        m matches MockMode::StreamSleep(a) && arg_text(a) == arg
    } else {
        m matches MockMode::Unknown(f) && f@ == flag
    }
}

fn opt_arg(arg: Option<&str>) -> (r: Option<String>)
    ensures
        match arg {
            Some(a) => r matches Some(s) && s@ == a@,
            None => r is None,
        },
{
    match arg {
        Some(a) => Some(a.to_owned()),
        None => None,
    }
}

/// The run mode selected by a mode flag and the argument after it.
pub fn mock_mode(flag: &str, arg: Option<&str>) -> (r: MockMode)
    ensures
        mode_matches(
            flag@,
            match arg {
                Some(a) => Some(a@),
                None => None,
            },
            r,
        ),
{
    if str_eq(flag, "--blocks") {
        MockMode::Blocks
    } else if str_eq(flag, "--ndjson") {
        MockMode::Ndjson
    } else if str_eq(flag, "--text") {
        MockMode::Text
    } else if str_eq(flag, "--unknown-kind") {
        MockMode::UnknownKind
    } else if str_eq(flag, "--sleep") {
        MockMode::Sleep(opt_arg(arg))
    } else if str_eq(flag, "--big") {
        MockMode::Big(opt_arg(arg))
    } else if str_eq(flag, "--fail") {
        MockMode::Fail
    } else if str_eq(flag, "--fail-plain") {
        MockMode::FailPlain
    } else if str_eq(flag, "--stream") {
        MockMode::Stream(opt_arg(arg))
    } else if str_eq(flag, "--stream-fail") {
        MockMode::StreamFail
    } else if str_eq(flag, "--stream-sleep") {
        MockMode::StreamSleep(opt_arg(arg))
    } else {
        MockMode::Unknown(flag.to_owned())
    }
}

/// The `i`th argument's text, or `default`.
pub open spec fn arg_or(args: Seq<Seq<char>>, i: int, default: Seq<char>) -> Seq<char> {
    if i < args.len() {
        args[i]
    } else {
        default
    }
}

/// The `i`th argument's text, if any.
pub open spec fn arg_at(args: Seq<Seq<char>>, i: int) -> Option<Seq<char>> {
    if i < args.len() {
        Some(args[i])
    } else {
        None
    }
}

/// What the (`--mode`-stripped) arguments select: the provider
/// subcommands `manifest`, `tools list`, `tools describe <name>` and
/// `call <name>`, or else a run in the mode named by the first argument
/// (`--blocks` by default).
pub open spec fn action_matches(args: Seq<Seq<char>>, a: MockAction) -> bool {
    let first = arg_or(args, 0, ""@);
    let second = arg_or(args, 1, ""@);
    let run_default = mode_matches(arg_or(args, 0, "--blocks"@), arg_at(args, 1), a->Run_0)
        && a is Run;
    if args.len() > 0 && first == "manifest"@ {
        a == MockAction::Manifest
    } else if args.len() > 0 && first == "tools"@ && args.len() > 1 && second == "list"@ {
        a == MockAction::ToolsList
    } else if args.len() > 0 && first == "tools"@ && args.len() > 1 && second == "describe"@ {
        let name = arg_or(args, 2, ""@);
        if name == "mock.echo"@ {
            a == MockAction::DescribeEcho
        } else {
            a matches MockAction::NotFound(n) && n@ == name
        }
    } else if args.len() > 0 && first == "call"@ {
        if second == "mock.echo"@ {
            a == MockAction::Run(MockMode::Blocks)
        } else if second == "mock.fail"@ {
            a == MockAction::Run(MockMode::Fail)
        } else {
            a matches MockAction::NotFound(n) && n@ == second
        }
    } else {
        run_default
    }
}

fn arg_str<'a>(args: &'a Vec<String>, i: usize, default: &'static str) -> (r: &'a str)
    ensures
        r@ == arg_or(texts(args@), i as int, default@),
{
    if i < args.len() {
        args[i].as_str()
    } else {
        default
    }
}

fn arg_opt(args: &Vec<String>, i: usize) -> (r: Option<&str>)
    ensures
        match r {
            Some(s) => arg_at(texts(args@), i as int) == Some(s@),
            None => arg_at(texts(args@), i as int) is None,
        },
{
    if i < args.len() {
        Some(args[i].as_str())
    } else {
        None
    }
}

/// Decide what the mock does for its (`--mode`-stripped) arguments.
pub fn mock_action(args: &Vec<String>) -> (r: MockAction)
    ensures
        action_matches(texts(args@), r),
{
    let ghost a = texts(args@);
    let n = args.len();
    let first = arg_str(args, 0, "");
    let second = arg_str(args, 1, "");
    if n > 0 && str_eq(first, "manifest") {
        return MockAction::Manifest;
    }
    if n > 1 && str_eq(first, "tools") && str_eq(second, "list") {
        return MockAction::ToolsList;
    }
    if n > 1 && str_eq(first, "tools") && str_eq(second, "describe") {
        let name = arg_str(args, 2, "");
        if str_eq(name, "mock.echo") {
            return MockAction::DescribeEcho;
        } else {
            return MockAction::NotFound(name.to_owned());
        }
    }
    if n > 0 && str_eq(first, "call") {
        if str_eq(second, "mock.echo") {
            return MockAction::Run(MockMode::Blocks);
        } else if str_eq(second, "mock.fail") {
            return MockAction::Run(MockMode::Fail);
        } else {
            return MockAction::NotFound(second.to_owned());
        }
    }
    let flag = arg_str(args, 0, "--blocks");
    MockAction::Run(mock_mode(flag, arg_opt(args, 1)))
}

} // verus!
