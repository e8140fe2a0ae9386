//! Errors of the worker's HTTP handlers and the statuses they answer with.

use vstd::prelude::*;
use crate::paths::{file_name, http_root, is_http_root, join, path_file_name, path_join};
use crate::storage::storiface::{sector_name, sector_name_text, SectorId};
use crate::text::{decimal, push_decimal, str_eq};

verus! {

/// An error of a sealing handler.
#[derive(Debug, Clone)]
pub enum HandlerError {
    InternalServerError(String),
    BadRequest(String),
}

/// The display text of a handler error (note the trailing space).
pub open spec fn handler_error_text(e: HandlerError) -> Seq<char> {
    match e {
        HandlerError::InternalServerError(m) => "internal server error: "@ + m@ + " "@,
        HandlerError::BadRequest(m) => "bad request: "@ + m@ + " "@,
    }
}

impl HandlerError {
    /// The HTTP status answered: 500 for an internal error, 400 for a bad request.
    pub fn status(&self) -> (s: u16)
        ensures
            s == (match self {
                HandlerError::InternalServerError(_) => 500u16,
                HandlerError::BadRequest(_) => 400u16,
            }),
    {
        match self {
            HandlerError::InternalServerError(_) => 500,
            HandlerError::BadRequest(_) => 400,
        }
    }

    /// The underlying error's text.
    pub fn error(&self) -> (e: &String)
        ensures
            e@ == (match self {
                HandlerError::InternalServerError(m) => m@,
                HandlerError::BadRequest(m) => m@,
            }),
    {
        match self {
            HandlerError::InternalServerError(e) => e,
            HandlerError::BadRequest(e) => e,
        }
    }

    /// The display text of the error.
    pub fn to_string(&self) -> (s: String)
        ensures
            s@ == handler_error_text(*self),
    {
        let mut s = match self {
            HandlerError::InternalServerError(_) => String::from_str("internal server error: "),
            HandlerError::BadRequest(_) => String::from_str("bad request: "),
        };
        s.append(self.error().as_str());
        s.append(" ");
        s
    }
}

/// Errors that name their HTTP status.
#[derive(Debug, Clone, Copy, PartialEq, Eq, Structural)]
pub enum ApiError {
    NotFound,
    BadRequest,
}

impl ApiError {
    /// The display text: `not found` or `bad request`.
    pub fn to_string(&self) -> (s: String)
        ensures
            s@ == (match self {
                ApiError::NotFound => "not found"@,
                ApiError::BadRequest => "bad request"@,
            }),
    {
        match self {
            ApiError::NotFound => String::from_str("not found"),
            ApiError::BadRequest => String::from_str("bad request"),
        }
    }
}

/// The error answered by a handler: its text, and the `ApiError` it is, if it is one.
#[derive(Debug, Clone)]
pub struct ResponseError {
    pub message: String,
    pub api_error: Option<ApiError>,
}

impl ResponseError {
    /// The answer for any error that is not an `ApiError`.
    pub fn from_message(message: String) -> (e: ResponseError)
        ensures
            e.message@ == message@,
            e.api_error is None,
    {
        ResponseError { message, api_error: None }
    }

    /// The answer for an `ApiError`.
    pub fn from_api_error(error: ApiError) -> (e: ResponseError)
        ensures
            e.api_error == Some(error),
            e.message@ == (match error {
                ApiError::NotFound => "not found"@,
                ApiError::BadRequest => "bad request"@,
            }),
    {
        ResponseError { message: error.to_string(), api_error: Some(error) }
    }

    /// The HTTP status answered: 404 or 400 for an `ApiError`, 500 for anything else.
    pub fn status(&self) -> (s: u16)
        ensures
            s == (match self.api_error {
                Some(ApiError::NotFound) => 404u16,
                Some(ApiError::BadRequest) => 400u16,
                None => 500u16,
            }),
    {
        match self.api_error {
            Some(ApiError::NotFound) => 404,
            Some(ApiError::BadRequest) => 400,
            None => 500,
        }
    }
}

/// The line logged periodically about a worker; none for a `U1C2` worker.
pub fn sealing_log_line(worker_type: &str, hostname: &str, sealing: u64) -> (l: Option<String>)
    ensures
        l is None <==> worker_type@ == "U1C2"@,
        l matches Some(t) ==> t@ == "sealSector "@ + worker_type@ + ","@ + hostname@ + ","@ + decimal(sealing as nat),
{
    if str_eq(worker_type, "U1C2") {
        return None;
    }
    let mut t = String::from_str("sealSector ");
    t.append(worker_type);
    t.append(",");
    t.append(hostname);
    t.append(",");
    push_decimal(&mut t, sealing);
    Some(t)
}

/// Answers a status request: appends `2` to the external commit2 address and returns the result.
pub fn status_reply(addr: &mut String) -> (r: String)
    ensures
        final(addr)@ == old(addr)@ + "2"@,
        r@ == final(addr)@,
{
    addr.append("2");
    addr.clone()
}

/// Answers the path test route with the `type` and `id` path parameters.
pub fn path_param_reply(kind: &str, id: &str) -> (r: String)
    ensures
        r@ == "{type: "@ + kind@ + ", id: "@ + id@ + "}"@,
{
    let mut r = String::from_str("{type: ");
    r.append(kind);
    r.append(", id: ");
    r.append(id);
    r.append("}");
    r
}

/// The outcome of a commit2 request once the proof is computed: the request is not served yet,
/// and answers an internal error `TODO!`.
pub fn seal_commit2_after_proof(proof: Vec<u8>) -> (e: HandlerError)
    ensures
        e matches HandlerError::InternalServerError(m) && m@ == "TODO!"@,
{
    HandlerError::InternalServerError(String::from_str("TODO!"))
}

/// The answer to a commit2 request: status 200 with the body, or the error's status with an empty
/// body and the error's text to send instead.
pub fn seal_commit2_reply(outcome: Result<Vec<u8>, HandlerError>) -> (r: (u16, Vec<u8>, Option<String>))
    ensures
        match outcome {
            Ok(body) => r.0 == 200 && r.1@ == body@ && r.2 is None,
            Err(e) => {
                &&& r.0 == (match e {
                    HandlerError::InternalServerError(_) => 500u16,
                    HandlerError::BadRequest(_) => 400u16,
                })
                &&& r.1@.len() == 0
                &&& r.2 matches Some(t) && t@ == handler_error_text(e)
            },
        },
{
    match outcome {
        Ok(body) => (200, body, None),
        Err(e) => (e.status(), Vec::new(), Some(e.to_string())),
    }
}

/// Where an add-piece request reads its piece and stages it. A root whose first component is
/// `http:` is read from the copy under `<repo>/<car_dir>/<sector name>`, named as the root's last
/// component; any other root is read where it is. The piece is staged as
/// `<repo>/unsealed/<sector name>`.
pub fn add_piece_paths(repo: &str, car_dir: &str, root: &str, sector: SectorId) -> (p: (String, String))
    ensures
        p.0@ == (if is_http_root(root@) {
            path_join(path_join(path_join(repo@, car_dir@), sector_name_text(sector)), path_file_name(root@))
        } else {
            root@
        }),
        p.1@ == path_join(path_join(repo@, "unsealed"@), sector_name_text(sector)),
{
    let name = sector_name(sector);
    let source = if http_root(root) {
        let dir = join(join(repo, car_dir).as_str(), name.as_str());
        join(dir.as_str(), file_name(root))
    } else {
        root.to_owned()
    };
    proof { reveal_strlit("unsealed"); }
    let staged = join(join(repo, "unsealed").as_str(), name.as_str());
    (source, staged)
}

} // verus!

verus! {

/// The external commit2 address after `n` status requests starting from `s0`: each request
/// appends `2` (see `status_reply`).
pub open spec fn status_after(s0: Seq<char>, n: nat) -> Seq<char>
    decreases n,
{
    if n == 0 {
        s0
    } else {
        status_after(s0, (n - 1) as nat) + "2"@
    }
}

/// Status requests count in `2`s: after `n` of them the address is the one it started from
/// followed by `n` characters `2`, so on a fresh handler the `n`-th answer is `n` times `2`.
pub proof fn law_status_counts_in_twos(s0: Seq<char>, n: nat)
    ensures
        status_after(s0, n) == s0 + Seq::new(n, |i: int| '2'),
        status_after(Seq::empty(), n) == Seq::new(n, |i: int| '2'),
    decreases n,
{
    reveal_strlit("2");
    if n > 0 {
        law_status_counts_in_twos(s0, (n - 1) as nat);
        assert(s0 + Seq::new((n - 1) as nat, |i: int| '2') + "2"@ =~= s0 + Seq::new(n, |i: int| '2'));
        assert(Seq::<char>::empty() + Seq::new((n - 1) as nat, |i: int| '2') + "2"@ =~= Seq::new(n, |i: int| '2'));
    } else {
        assert(s0 + Seq::new(0, |i: int| '2') =~= s0);
        assert(Seq::<char>::empty() =~= Seq::new(0, |i: int| '2'));
    }
}

} // verus!
