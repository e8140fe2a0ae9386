//! The JSON-RPC API the worker serves: method names, access levels, and versions.

use vstd::prelude::*;
use crate::text::str_eq;

verus! {

/// Access levels checked against the claims of a token.
#[derive(Debug, Clone, Copy, PartialEq, Eq, Structural)]
pub enum Access {
    Admin,
    Sign,
    Write,
    Read,
}

/// The claim that grants an access level.
pub open spec fn access_claim(a: Access) -> Seq<char> {
    match a {
        Access::Admin => "admin"@,
        Access::Sign => "sign"@,
        Access::Write => "write"@,
        Access::Read => "read"@,
    }
}

/// Whether the claims grant the access level: they contain its claim.
pub fn check_access(access: &Access, claims: &[String]) -> (r: bool)
    ensures
        r == exists|i: int| 0 <= i < claims@.len() && #[trigger] claims@[i]@ == access_claim(*access),
{
    let needed: &str = match access {
        Access::Admin => "admin",
        Access::Sign => "sign",
        Access::Write => "write",
        Access::Read => "read",
    };
    let mut i: usize = 0;
    while i < claims.len()
        invariant
            i <= claims@.len(),
            needed@ == access_claim(*access),
            forall|j: int| 0 <= j < i ==> #[trigger] claims@[j]@ != access_claim(*access),
        decreases claims@.len() - i,
    {
        if str_eq(claims[i].as_str(), needed) {
            return true;
        }
        i = i + 1;
    }
    false
}

pub const AUTH_NEW: &'static str = "Filecoin.AuthNew";

pub const AUTH_VERIFY: &'static str = "Filecoin.AuthVerify";

pub const VERSION: &'static str = "Filecoin.Version";

pub const SHUTDOWN: &'static str = "Filecoin.Shutdown";

pub const START_TIME: &'static str = "Filecoin.StartTime";

/// The access level each method requires.
pub open spec fn method_access_spec(method: Seq<char>) -> Option<Access> {
    if method == AUTH_NEW@ {
        Some(Access::Admin)
    } else if method == AUTH_VERIFY@ {
        Some(Access::Read)
    } else if method == VERSION@ {
        Some(Access::Read)
    } else if method == SHUTDOWN@ {
        Some(Access::Admin)
    } else if method == START_TIME@ {
        Some(Access::Read)
    } else {
        None
    }
}

/// The access level a method requires; `None` for a method that is not listed.
pub fn method_access(method: &str) -> (r: Option<Access>)
    ensures
        r == method_access_spec(method@),
{
    if str_eq(method, AUTH_NEW) {
        Some(Access::Admin)
    } else if str_eq(method, AUTH_VERIFY) {
        Some(Access::Read)
    } else if str_eq(method, VERSION) {
        Some(Access::Read)
    } else if str_eq(method, SHUTDOWN) {
        Some(Access::Admin)
    } else if str_eq(method, START_TIME) {
        Some(Access::Read)
    } else {
        None
    }
}

/// The JSON-RPC defaults of the API.
pub const DEFAULT_MULTIADDRESS: &'static str = "/ip4/127.0.0.1/tcp/1234/http";

pub const API_INFO_KEY: &'static str = "FULLNODE_API_INFO";

/// A version number: major in the high bits, minor in the middle, patch in the low bits.
#[derive(Debug, Clone, Copy, PartialEq, Eq, Structural)]
pub struct Version(pub u32);

/// The number of a version: each part truncated to 32 bits, the major shifted by 16 and the minor
/// by 8, all three combined with bitwise or.
pub open spec fn version_number(major: u64, minor: u64, patch: u64) -> u32 {
    ((major as u32) << 16u32) | ((minor as u32) << 8u32) | (patch as u32)
}

impl Version {
    pub fn new(major: u64, minor: u64, patch: u64) -> (v: Version)
        ensures
            v.0 == version_number(major, minor, patch),
    {
        Version(((major as u32) << 16u32) | ((minor as u32) << 8u32) | (patch as u32))
    }
}

/// The version of the API.
#[derive(Debug, Clone)]
pub struct APIVersion {
    pub version: String,
    pub api_version: Version,
    pub block_delay: u64,
}

} // verus!

verus! {

/// Parts that fit their fields are read back from the version number: the major from the high
/// sixteen bits, the minor and the patch from the two low bytes.
pub proof fn law_version_parts_read_back(major: u64, minor: u64, patch: u64)
    requires
        major < 0x1_0000,
        minor < 0x100,
        patch < 0x100,
    ensures
        version_number(major, minor, patch) >> 16u32 == major,
        (version_number(major, minor, patch) >> 8u32) & 0xffu32 == minor,
        version_number(major, minor, patch) & 0xffu32 == patch,
{
    let a = major as u32;
    let b = minor as u32;
    let c = patch as u32;
    assert(a == major && b == minor && c == patch);
    assert(((a << 16u32) | (b << 8u32) | c) >> 16u32 == a) by (bit_vector)
        requires a < 0x1_0000u32, b < 0x100u32, c < 0x100u32;
    assert((((a << 16u32) | (b << 8u32) | c) >> 8u32) & 0xffu32 == b) by (bit_vector)
        requires a < 0x1_0000u32, b < 0x100u32, c < 0x100u32;
    assert(((a << 16u32) | (b << 8u32) | c) & 0xffu32 == c) by (bit_vector)
        requires a < 0x1_0000u32, b < 0x100u32, c < 0x100u32;
}

} // verus!
