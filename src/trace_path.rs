//! Where the trace file goes.
//!
//! The caller gathers what only the running process knows (the override
//! variable, the executable's directory and file name, whether the output
//! directory could be created, the current time) and hands it over as plain
//! values; everything decided from them is here.

use vstd::prelude::*;
use vstd::string::StrSliceExecFns;
use vstd::string::StringExecFns;

use crate::decimal::decimal;
use crate::decimal::decimal_string;

verus! {

/// `name` appended to `dir` as one more path component, with a single `/`
/// between them.
pub open spec fn joined(dir: Seq<char>, name: Seq<char>) -> Seq<char> {
    if dir.len() == 0 {
        name
    } else if dir.last() == '/' {
        dir + name
    } else {
        dir + seq!['/'] + name
    }
}

/// The subdirectory that receives trace files.
pub open spec fn traces_component() -> Seq<char> {
    seq!['t', 'r', 'a', 'c', 'e', 's']
}

/// The base name used when the executable's name is unknown.
pub open spec fn default_base_name() -> Seq<char> {
    seq!['t', 'r', 'a', 'c', 'e']
}

/// The text between the base name and the timestamp.
pub open spec fn trace_infix() -> Seq<char> {
    seq!['_', 't', 'r', 'a', 'c', 'e', '_']
}

/// The file extension of a trace file, with its dot.
pub open spec fn json_suffix() -> Seq<char> {
    seq!['.', 'j', 's', 'o', 'n']
}

/// The executable's name if it is known, else the default base name.
pub open spec fn base_name(exe_name: Option<Seq<char>>) -> Seq<char> {
    match exe_name {
        Some(n) => if n.len() > 0 { n } else { default_base_name() },
        None => default_base_name(),
    }
}

/// `<base>_trace_<millis>.json`.
pub open spec fn trace_file_name_of(base: Seq<char>, millis: nat) -> Seq<char> {
    base + trace_infix() + decimal(millis) + json_suffix()
}

/// The `traces` directory beside the executable, or inside the fallback
/// directory where the executable's directory is unknown.
pub open spec fn candidate_dir_of(exe_dir: Option<Seq<char>>, fallback: Seq<char>) -> Seq<char> {
    match exe_dir {
        Some(d) => joined(d, traces_component()),
        None => joined(fallback, traces_component()),
    }
}

/// An override that counts: one that is present and not empty.
pub open spec fn override_given(override_path: Option<Seq<char>>) -> bool {
    override_path is Some && override_path->0.len() > 0
}

/// The trace file's path: the override if one is given; else, where the
/// candidate directory exists, a timestamped file in it; else the fallback
/// directory itself.
pub open spec fn trace_path_of(
    override_path: Option<Seq<char>>,
    dir: Seq<char>,
    dir_created: bool,
    exe_name: Option<Seq<char>>,
    millis: nat,
    fallback: Seq<char>,
) -> Seq<char> {
    if override_given(override_path) {
        override_path->0
    } else if dir_created {
        joined(dir, trace_file_name_of(base_name(exe_name), millis))
    } else {
        fallback
    }
}

/// The view of an optional string slice.
pub open spec fn opt_view(s: Option<&str>) -> Option<Seq<char>> {
    match s {
        Some(t) => Some(t@),
        None => None,
    }
}

/// With no override, a created directory beside the executable, an
/// executable named `app` and an instant of `millis` milliseconds, the trace
/// file is `<exe_dir>/traces/app_trace_<millis>.json`; the same inputs always
/// give the same path.
pub proof fn lemma_deterministic_naming(exe_dir: Seq<char>, millis: nat, fallback: Seq<char>)
    requires
        exe_dir.len() > 0,
        exe_dir.last() != '/',
    ensures
        trace_path_of(
            None,
            candidate_dir_of(Some(exe_dir), fallback),
            true,
            Some(seq!['a', 'p', 'p']),
            millis,
            fallback,
        ) == exe_dir + seq!['/', 't', 'r', 'a', 'c', 'e', 's', '/', 'a', 'p', 'p', '_', 't', 'r', 'a', 'c', 'e', '_']
            + decimal(millis) + seq!['.', 'j', 's', 'o', 'n'],
{
    let dir = candidate_dir_of(Some(exe_dir), fallback);
    assert(dir == exe_dir + seq!['/'] + traces_component());
    assert(dir.len() > 0 && dir.last() == 's');
    assert(base_name(Some(seq!['a', 'p', 'p'])) == seq!['a', 'p', 'p']);
    assert(trace_path_of(None, dir, true, Some(seq!['a', 'p', 'p']), millis, fallback)
        =~= exe_dir + seq!['/', 't', 'r', 'a', 'c', 'e', 's', '/', 'a', 'p', 'p', '_', 't', 'r', 'a', 'c', 'e', '_']
            + decimal(millis) + seq!['.', 'j', 's', 'o', 'n']);
}

/// A non-empty override is the trace path, whatever the executable's name,
/// the time, the directory or whether creating it worked.
pub proof fn lemma_override_precedence(
    path: Seq<char>,
    dir: Seq<char>,
    dir_created: bool,
    exe_name: Option<Seq<char>>,
    millis: nat,
    fallback: Seq<char>,
)
    requires
        path.len() > 0,
    ensures
        trace_path_of(Some(path), dir, dir_created, exe_name, millis, fallback) == path,
{
}

/// Where no override is given and the directory could not be created, the
/// path is the fallback directory: the derivation still yields a path.
pub proof fn lemma_fallback_when_dir_fails(
    override_path: Option<Seq<char>>,
    dir: Seq<char>,
    exe_name: Option<Seq<char>>,
    millis: nat,
    fallback: Seq<char>,
)
    requires
        !override_given(override_path),
    ensures
        trace_path_of(override_path, dir, false, exe_name, millis, fallback) == fallback,
{
}

/// Appends `name` to `dir` as a path component.
pub fn join_path(dir: &str, name: &str) -> (r: String)
    ensures
        r@ == joined(dir@, name@),
{
    let len = dir.unicode_len();
    if len == 0 {
        return String::from_str(name);
    }
    let last = dir.get_char(len - 1);
    let mut r = String::from_str(dir);
    if last != '/' {
        r.append("/");
        proof {
            reveal_strlit("/");
            assert("/"@ =~= seq!['/']);
        }
    }
    r.append(name);
    r
}

/// The directory that a trace file is written to when no override is given.
pub fn candidate_dir(exe_dir: Option<&str>, fallback: &str) -> (r: String)
    ensures
        r@ == candidate_dir_of(opt_view(exe_dir), fallback@),
{
    let traces = "traces";
    proof {
        reveal_strlit("traces");
        assert(traces@ =~= traces_component());
    }
    match exe_dir {
        Some(d) => join_path(d, traces),
        None => join_path(fallback, traces),
    }
}

/// The file name `<base>_trace_<millis>.json`, with `trace` as the base
/// where the executable's name is unknown or empty.
pub fn trace_file_name(exe_name: Option<&str>, millis: u128) -> (r: String)
    ensures
        r@ == trace_file_name_of(base_name(opt_view(exe_name)), millis as nat),
{
    let fallback_base = "trace";
    let infix = "_trace_";
    let suffix = ".json";
    proof {
        reveal_strlit("trace");
        reveal_strlit("_trace_");
        reveal_strlit(".json");
        assert(fallback_base@ =~= default_base_name());
        assert(infix@ =~= trace_infix());
        assert(suffix@ =~= json_suffix());
    }
    let base = match exe_name {
        Some(n) => if n.unicode_len() > 0 { n } else { fallback_base },
        None => fallback_base,
    };
    let mut r = String::from_str(base);
    r.append(infix);
    let digits = decimal_string(millis);
    r.append(digits.as_str());
    r.append(suffix);
    r
}

/// Whether the caller has to create the candidate directory: only where no
/// override is given.
pub fn needs_trace_dir(override_path: Option<&str>) -> (r: bool)
    ensures
        r == !override_given(opt_view(override_path)),
{
    match override_path {
        Some(o) => o.unicode_len() == 0,
        None => true,
    }
}

/// Chooses the trace file's path.
///
/// `dir` is the directory the caller tried to create and `dir_created` says
/// whether that worked. No input makes this fail: where nothing better is
/// available the result is `fallback`.
pub fn trace_path(
    override_path: Option<&str>,
    dir: &str,
    dir_created: bool,
    exe_name: Option<&str>,
    millis: u128,
    fallback: &str,
) -> (r: String)
    ensures
        r@ == trace_path_of(
            opt_view(override_path),
            dir@,
            dir_created,
            opt_view(exe_name),
            millis as nat,
            fallback@,
        ),
{
    if let Some(o) = override_path {
        if o.unicode_len() > 0 {
            return String::from_str(o);
        }
    }
    if dir_created {
        let name = trace_file_name(exe_name, millis);
        join_path(dir, name.as_str())
    } else {
        String::from_str(fallback)
    }
}

} // verus!
