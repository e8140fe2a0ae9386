//! The environment the worker reports when it starts.

use vstd::prelude::*;

verus! {

/// The variables shown at start, in order, each with whether it must be set and not empty.
pub open spec fn shown_env_spec() -> Seq<(Seq<char>, bool)> {
    seq![
        ("TMPDIR"@, true),
        ("GOLOG_LOG_FMT"@, false),
        ("GOLOG_FILE"@, false),
        ("RUST_LOG"@, false),
        ("NEPTUNE_GPU_INDEX"@, false),
        ("BELLMAN_NO_GPU"@, false),
        ("BELLMAN_FFT_NO_GPU"@, false),
        ("BELLMAN_WORKING_GPUS"@, false),
        ("EC_GPU_FRAMEWORK"@, false),
    ]
}

/// The variables shown at start, in order, each with whether it must be set and not empty.
pub fn shown_env() -> (v: Vec<(String, bool)>)
    ensures
        v@.len() == shown_env_spec().len(),
        forall|i: int| 0 <= i < v@.len() ==> (#[trigger] v@[i]).0@ == shown_env_spec()[i].0 && v@[i].1 == shown_env_spec()[i].1,
{
    let mut v: Vec<(String, bool)> = Vec::new();
    v.push((String::from_str("TMPDIR"), true));
    v.push((String::from_str("GOLOG_LOG_FMT"), false));
    v.push((String::from_str("GOLOG_FILE"), false));
    v.push((String::from_str("RUST_LOG"), false));
    v.push((String::from_str("NEPTUNE_GPU_INDEX"), false));
    v.push((String::from_str("BELLMAN_NO_GPU"), false));
    v.push((String::from_str("BELLMAN_FFT_NO_GPU"), false));
    v.push((String::from_str("BELLMAN_WORKING_GPUS"), false));
    v.push((String::from_str("EC_GPU_FRAMEWORK"), false));
    v
}

/// Whether a variable that must be set is missing or empty (then the worker stops).
pub open spec fn env_missing(value: Option<Seq<char>>, must: bool) -> bool {
    must && (match value {
        Some(v) => v.len() == 0,
        None => true,
    })
}

/// Whether the worker stops at a variable with this value (`None` when it is not set): it must be
/// set and is missing or empty.
pub fn env_stops(value: Option<&str>, must: bool) -> (r: bool)
    ensures
        r == env_missing(
            match value {
                Some(v) => Some(v@),
                None => None,
            },
            must,
        ),
{
    if !must {
        return false;
    }
    match value {
        Some(v) => v.unicode_len() == 0,
        None => true,
    }
}

/// The message the worker stops with when a variable that must be set is missing or empty.
pub fn missing_env_message(name: &str) -> (m: String)
    ensures
        m@ == "env: "@ + name@ + " can't empty"@,
{
    let mut m = String::from_str("env: ");
    m.append(name);
    m.append(" can't empty");
    m
}

/// The value shown for a variable: its value, or empty when it is not set.
pub fn env_shown_value(value: Option<String>) -> (s: String)
    ensures
        s@ == (match value {
            Some(v) => v@,
            None => Seq::<char>::empty(),
        }),
{
    match value {
        Some(v) => v,
        None => String::new(),
    }
}

/// A text without the `,` characters at its end.
pub open spec fn trim_end_commas_spec(s: Seq<char>) -> Seq<char>
    decreases s.len(),
{
    if s.len() > 0 && s.last() == ',' {
        trim_end_commas_spec(s.drop_last())
    } else {
        s
    }
}

/// The value `BELLMAN_WORKING_GPUS` is set to: its value without trailing commas.
pub fn trim_end_commas(s: &str) -> (t: &str)
    ensures
        t@ == trim_end_commas_spec(s@),
{
    let mut n = s.unicode_len();
    assert(s@.take(n as int) =~= s@);
    while n > 0 && s.get_char(n - 1) == ','
        invariant
            n <= s@.len(),
            trim_end_commas_spec(s@.take(n as int)) == trim_end_commas_spec(s@),
        decreases n,
    {
        assert(s@.take(n as int).drop_last() =~= s@.take(n - 1));
        n = n - 1;
    }
    let t = s.substring_char(0, n);
    proof {
        assert(s@.take(n as int) =~= s@.subrange(0, n as int));
    }
    t
}

} // verus!
