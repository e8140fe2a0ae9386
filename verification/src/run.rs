//! What the `run` command does before it serves: the sector size, the directories, the
//! environment it sets, and the tasks the worker announces.

use vstd::prelude::*;
use crate::paths::{join, path_join};
use crate::storage::seal_tasks::TaskType;
use crate::text::{contains_text, decimal, is_digit, text_contains, u64_to_decimal};

verus! {

/// Errors of `parse_size::parse_size`.
#[derive(Debug, Clone, Copy, PartialEq, Eq, Structural)]
pub enum SizeError {
    Empty,
    InvalidDigit,
    PosOverflow,
    /// A kind of error that this library does not know of.
    Other,
}

/// The display text of a size error.
pub open spec fn size_error_text(e: SizeError) -> Seq<char> {
    match e {
        SizeError::Empty => "cannot parse integer from empty string"@,
        SizeError::InvalidDigit => "invalid digit found in string"@,
        SizeError::PosOverflow => "number too large to fit in target type"@,
        SizeError::Other => "invalid size"@,
    }
}

impl SizeError {
    /// The display text of the error.
    pub fn to_string(&self) -> (s: String)
        ensures
            s@ == size_error_text(*self),
    {
        match self {
            SizeError::Empty => String::from_str("cannot parse integer from empty string"),
            SizeError::InvalidDigit => String::from_str("invalid digit found in string"),
            SizeError::PosOverflow => String::from_str("number too large to fit in target type"),
            SizeError::Other => String::from_str("invalid size"),
        }
    }
}

/// What `parse_size::parse_size` gives for a text.
pub uninterp spec fn parse_size_result(s: Seq<char>) -> Result<u64, SizeError>;

/// Scanning the leading number of a size text from position `i`, with the digits so far worth
/// `m` (`state`: 0 before any digit, 1 in the integer part, 2 in the fraction), reaches the one
/// digit that no longer fits in 64 bits while the digits so far are worth exactly `u64::MAX`
/// and that digit is 5 or more. `_` and ` ` are skipped, one `.` may follow the integer part,
/// any other character ends the number.
pub open spec fn size_scan_rounds_past_max(s: Seq<char>, i: int, m: int, state: int) -> bool
    decreases s.len() - i,
{
    if i < 0 || i >= s.len() {
        false
    } else if is_digit(s[i]) {
        let d = (s[i] as int) - ('0' as int);
        if m * 10 + d <= u64::MAX {
            size_scan_rounds_past_max(s, i + 1, m * 10 + d, if state == 2 { 2 } else { 1 })
        } else {
            m == u64::MAX && d >= 5
        }
    } else if s[i] == '_' || s[i] == ' ' {
        size_scan_rounds_past_max(s, i + 1, m, state)
    } else if s[i] == '.' && state == 1 {
        size_scan_rounds_past_max(s, i + 1, m, 2)
    } else {
        false
    }
}

/// Texts on which `parse_size::parse_size` does not return normally: its leading number rounds
/// up past `u64::MAX` (it adds one to a mantissa of `u64::MAX`), or the text is so long that its
/// count of overflowing digits no longer fits in an `i32`.
pub open spec fn size_text_breaks_parser(s: Seq<char>) -> bool {
    s.len() > i32::MAX || size_scan_rounds_past_max(s, 0, 0, 0)
}

/// Whether `parse_size::parse_size` would not return normally on `s` (see
/// `size_text_breaks_parser`).
pub fn size_text_breaks(s: &str) -> (r: bool)
    ensures
        r == size_text_breaks_parser(s@),
{
    let n = s.unicode_len();
    if n > 0x7fff_ffff {
        return true;
    }
    let mut i: usize = 0;
    let mut m: u64 = 0;
    let mut state: u8 = 0;
    while i < n
        invariant
            n == s@.len(),
            n <= 0x7fff_ffff,
            i <= n,
            state <= 2,
            size_scan_rounds_past_max(s@, 0, 0, 0) == size_scan_rounds_past_max(s@, i as int, m as int, state as int),
        decreases n - i,
    {
        let c = s.get_char(i);
        if '0' <= c && c <= '9' {
            let d: u64 = ((c as u32) - ('0' as u32)) as u64;
            let next = match m.checked_mul(10) {
                Some(t) => t.checked_add(d),
                None => None,
            };
            match next {
                Some(v) => {
                    m = v;
                    state = if state == 2 { 2 } else { 1 };
                },
                None => {
                    assert(m * 10 + d > u64::MAX) by (nonlinear_arith)
                        requires
                            m * 10 > u64::MAX || m * 10 + d > u64::MAX;
                    return m == u64::MAX && d >= 5;
                },
            }
        } else if c == '_' || c == ' ' {
        } else if c == '.' && state == 1 {
            state = 2;
        } else {
            return false;
        }
        i = i + 1;
    }
    false
}

/// Reads a size such as `32GiB` (`parse_size::parse_size`, default configuration). Claimed: the
/// result is `parse_size_result` of the text. It needs a text on which the parser returns
/// normally (see `size_text_breaks_parser`).
#[verifier::external_body]
fn parse_size_text(s: &str) -> (r: Result<u64, SizeError>)
    requires
        !size_text_breaks_parser(s@),
    ensures
        r == parse_size_result(s@),
{
    match parse_size::parse_size(s) {
        Ok(n) => Ok(n),
        Err(parse_size::Error::Empty) => Err(SizeError::Empty),
        Err(parse_size::Error::InvalidDigit) => Err(SizeError::InvalidDigit),
        Err(parse_size::Error::PosOverflow) => Err(SizeError::PosOverflow),
        Err(_) => Err(SizeError::Other),
    }
}

/// The sector size given on the command line, in bytes. A number that rounds up past the
/// largest size, or a text too long to read, is too large.
pub fn parse_sector_size(s: &str) -> (r: Result<u64, String>)
    ensures
        size_text_breaks_parser(s@) ==> (r matches Err(m)
            && m@ == "parse sector_size: "@ + size_error_text(SizeError::PosOverflow)),
        !size_text_breaks_parser(s@) ==> {
            &&& r matches Ok(n) ==> parse_size_result(s@) == Ok::<u64, SizeError>(n)
            &&& r matches Err(m) ==> parse_size_result(s@) matches Err(e)
                && m@ == "parse sector_size: "@ + size_error_text(e)
            &&& r is Ok <==> parse_size_result(s@) is Ok
        },
{
    let parsed = if size_text_breaks(s) {
        Err(SizeError::PosOverflow)
    } else {
        parse_size_text(s)
    };
    match parsed {
        Ok(n) => Ok(n),
        Err(e) => {
            let mut m = String::from_str("parse sector_size: ");
            let t = e.to_string();
            m.append(t.as_str());
            Err(m)
        },
    }
}

/// The options of the `run` command that decide what it does.
#[derive(Debug, Clone)]
pub struct RunOptions {
    pub worker_repo: String,
    pub listen: String,
    pub ext_address: Option<String>,
    pub address: Option<String>,
    pub sector_size: String,
    pub seal_num: u64,
    pub skip_param: bool,
    pub precommit1: bool,
    pub precommit2: bool,
    pub commit: bool,
}

/// The warning printed before running when the deprecated `--address` flag is given.
pub fn address_warning(opts: &RunOptions) -> (w: Option<String>)
    ensures
        w is Some <==> opts.address is Some,
        w matches Some(t) ==> t@ == "The '--address' flag is deprecated, it has been replaced by '--listen'"@,
{
    match &opts.address {
        Some(_) => Some(String::from_str("The '--address' flag is deprecated, it has been replaced by '--listen'")),
        None => None,
    }
}

/// What `run` does with given options, sector size and `FIL_PROOFS_P1_TURBO_NUM` value.
#[derive(Debug, Clone)]
pub struct RunPlan {
    /// Whether the proof parameters are fetched first.
    pub fetch_params: bool,
    /// The address the worker announces.
    pub host: String,
    /// The directories created, the repository first.
    pub dirs: Vec<String>,
    /// The number of seal tasks, at least one.
    pub seal_num: u64,
    /// The value set for `FIL_PROOFS_P1_THRESHOLD`.
    pub disk_threshold: String,
    /// The value set for `FIL_PROOFS_P1_TURBO_NUM`, when one is set.
    pub p1_turbo_num: Option<String>,
    /// Whether the GPU frameworks are set to CUDA and leftover `bellman` files removed.
    pub use_cuda: bool,
    /// The repository's `tmp` directory.
    pub tmp_dir: String,
    /// The tasks the worker takes, in order.
    pub task_types: Vec<TaskType>,
    /// The worker type: `p1`, `p2` and `c2` for the enabled stages, in that order.
    pub worker_type: String,
    /// The number of tasks the worker announces.
    pub worker_seal_num: u64,
}

/// The number of seal tasks: the option, or one when it is zero.
pub open spec fn effective_seal_num(n: u64) -> u64 {
    if n == 0 { 1 } else { n }
}

/// The tasks taken for the enabled stages.
pub open spec fn planned_task_types(p1: bool, p2: bool, c: bool) -> Seq<TaskType> {
    (if p1 { seq![TaskType::TTAddPiece, TaskType::TTPreCommit1] } else { Seq::empty() })
        + (if p2 { seq![TaskType::TTPreCommit2, TaskType::TTCommit1, TaskType::TTFinalize] } else { Seq::empty() })
        + (if c { seq![TaskType::TTCommit2, TaskType::TTFinalize] } else { Seq::empty() })
}

/// The worker type for the enabled stages.
pub open spec fn planned_worker_type(p1: bool, p2: bool, c: bool) -> Seq<char> {
    (if p1 { "p1"@ } else { Seq::empty() }) + (if p2 { "p2"@ } else { Seq::empty() })
        + (if c { "c2"@ } else { Seq::empty() })
}

/// The directories `run` creates, the repository first.
pub open spec fn planned_dirs(repo: Seq<char>) -> Seq<Seq<char>> {
    seq![
        repo,
        path_join(repo, "cache"@),
        path_join(repo, "unsealed"@),
        path_join(repo, "sealed"@),
        path_join(repo, "result"@),
        path_join(repo, "tmp"@),
    ]
}

/// `plan` is what `run` does with options `opts`, sector size `size` and the current value of
/// `FIL_PROOFS_P1_TURBO_NUM`.
pub open spec fn is_run_plan(opts: RunOptions, size: u64, p1_turbo_env: Option<String>, plan: RunPlan) -> bool {
    let n = effective_seal_num(opts.seal_num);
    &&& plan.fetch_params == !opts.skip_param
    &&& plan.host@ == (match opts.ext_address {
        Some(a) => a@,
        None => opts.listen@,
    })
    &&& plan.dirs@.map_values(|d: String| d@) == planned_dirs(opts.worker_repo@)
    &&& plan.seal_num == n
    &&& plan.disk_threshold@ == decimal((size * (n + 10)) as nat)
    &&& plan.p1_turbo_num is Some <==> opts.precommit2 && (match p1_turbo_env {
        Some(v) => v@.len() == 0,
        None => true,
    })
    &&& plan.p1_turbo_num matches Some(t) ==> t@ == decimal(opts.seal_num as nat)
    &&& plan.use_cuda == opts.commit
    &&& plan.tmp_dir@ == path_join(opts.worker_repo@, "tmp"@)
    &&& plan.task_types@ == planned_task_types(opts.precommit1, opts.precommit2, opts.commit)
    &&& plan.worker_type@ == planned_worker_type(opts.precommit1, opts.precommit2, opts.commit)
    &&& plan.worker_seal_num == (if opts.precommit2 || opts.commit { n * 3 } else { n as int })
}

/// Plans `run`: it needs the sector size (read with `parse_sector_size`) and the current value of
/// `FIL_PROOFS_P1_TURBO_NUM`; the products it computes must fit in 64 bits.
pub fn plan_run(opts: &RunOptions, sector_size: u64, p1_turbo_env: Option<String>) -> (plan: RunPlan)
    requires
        sector_size * (effective_seal_num(opts.seal_num) + 10) <= u64::MAX,
        effective_seal_num(opts.seal_num) + 10 <= u64::MAX,
        opts.precommit2 || opts.commit ==> effective_seal_num(opts.seal_num) * 3 <= u64::MAX,
    ensures
        is_run_plan(*opts, sector_size, p1_turbo_env, plan),
{
    let host = match &opts.ext_address {
        Some(a) => a.clone(),
        None => opts.listen.clone(),
    };
    let repo = opts.worker_repo.as_str();
    let mut dirs: Vec<String> = Vec::new();
    dirs.push(opts.worker_repo.clone());
    dirs.push(join(repo, "cache"));
    dirs.push(join(repo, "unsealed"));
    dirs.push(join(repo, "sealed"));
    dirs.push(join(repo, "result"));
    let tmp_dir = join(repo, "tmp");
    dirs.push(tmp_dir.clone());
    assert(dirs@.map_values(|d: String| d@) =~= planned_dirs(opts.worker_repo@));

    let seal_num = if opts.seal_num == 0 { 1 } else { opts.seal_num };
    let disk_threshold = u64_to_decimal(sector_size * (seal_num + 10));

    let mut task_types: Vec<TaskType> = Vec::new();
    let mut worker_type = String::new();
    let mut worker_seal_num = seal_num;
    let mut p1_turbo_num: Option<String> = None;
    if opts.precommit1 {
        task_types.push(TaskType::TTAddPiece);
        task_types.push(TaskType::TTPreCommit1);
        worker_type.append("p1");
    }
    if opts.precommit2 {
        let unset = match &p1_turbo_env {
            Some(v) => v.unicode_len() == 0,
            None => true,
        };
        if unset {
            p1_turbo_num = Some(u64_to_decimal(opts.seal_num));
        }
        task_types.push(TaskType::TTPreCommit2);
        task_types.push(TaskType::TTCommit1);
        task_types.push(TaskType::TTFinalize);
        worker_type.append("p2");
        worker_seal_num = seal_num * 3;
    }
    if opts.commit {
        task_types.push(TaskType::TTCommit2);
        task_types.push(TaskType::TTFinalize);
        worker_type.append("c2");
        worker_seal_num = seal_num * 3;
    }
    assert(task_types@ =~= planned_task_types(opts.precommit1, opts.precommit2, opts.commit));
    assert(worker_type@ =~= planned_worker_type(opts.precommit1, opts.precommit2, opts.commit));
    RunPlan {
        fetch_params: !opts.skip_param,
        host,
        dirs,
        seal_num,
        disk_threshold,
        p1_turbo_num,
        use_cuda: opts.commit,
        tmp_dir,
        task_types,
        worker_type,
        worker_seal_num,
    }
}

/// Whether a file left in the `tmp` directory is a `bellman` file, removed before running
/// commit tasks. A name that is not valid text is never one.
pub fn is_bellman_file(name: Option<&str>) -> (r: bool)
    ensures
        r == (match name {
            Some(n) => contains_text(n@, "bellman"@),
            None => false,
        }),
{
    match name {
        Some(n) => text_contains(n, "bellman"),
        None => false,
    }
}

} // verus!
