//! The sealing manager's API as seen by the worker: errors, addresses, and replies.

use vstd::prelude::*;
use libp2p::multiaddr::Protocol;
use crate::storage::storiface::{CallError, CallID};
use crate::text::{decimal, push_decimal, push_signed_decimal, signed_decimal};

verus! {

/// An error reported by the storage miner.
#[derive(Debug, Clone)]
pub struct StorageMinerError {
    pub code: i64,
    pub message: String,
}

impl StorageMinerError {
    /// The display text of the error: `code <code>, msg: <message>`.
    pub fn to_string(&self) -> (s: String)
        ensures
            s@ == "code "@ + signed_decimal(self.code as int) + ", msg: "@ + self.message@,
    {
        let mut s = String::from_str("code ");
        push_signed_decimal(&mut s, self.code);
        s.append(", msg: ");
        s.append(self.message.as_str());
        s
    }
}

/// The return channel to the sealing manager: a worker reports the outcome of its calls there.
pub trait WorkerReturn: Sized {
    fn return_seal_commit2(&self, call_id: CallID, proof: Vec<u8>, err: Option<&CallError>) -> Result<(), String>;
}

/// A storage miner: it receives what workers return.
pub trait StorageMiner: WorkerReturn {
}

/// The method through which a commit2 result is returned.
pub const RETURN_SEAL_COMMIT2: &'static str = "ReturnSealCommit2";

/// The environment variable holding the API address, optionally after a token and `:`.
pub const API_INFO_KEY: &'static str = "FULLNODE_API_INFO";

pub const DEFAULT_HOST: &'static str = "127.0.0.1";

pub const DEFAULT_MULTIADDRESS: &'static str = "/ip4/127.0.0.1/tcp/1234/http";

pub const DEFAULT_PORT: u16 = 1234;

pub const DEFAULT_PROTOCOL: &'static str = "http";

pub const RPC_ENDPOINT: &'static str = "rpc/v0";

/// One component of a multiaddress, as far as the API client reads it.
#[derive(Debug, Clone)]
pub enum AddrPart {
    Ip4([u8; 4]),
    /// An IPv6 address, in its display form.
    Ip6(String),
    Dns(String),
    Dns4(String),
    Dns6(String),
    Dnsaddr(String),
    Tcp(u16),
    Http,
    Https,
    /// Any other protocol; the API client ignores it.
    Other,
}

/// What parsing a multiaddress text gives, component by component; `None` when it is not one.
pub uninterp spec fn multiaddr_parts(s: Seq<char>) -> Option<Seq<AddrPart>>;

/// Parses a multiaddress (`libp2p::Multiaddr::from_str`) and lists its components.
/// Claimed: the result is `multiaddr_parts` of the text.
#[verifier::external_body]
fn parse_multiaddr(s: &str) -> (r: Option<Vec<AddrPart>>)
    ensures
        match r {
            Some(v) => multiaddr_parts(s@) == Some(v@),
            None => multiaddr_parts(s@) is None,
        },
{
    let addr: libp2p::Multiaddr = s.parse().ok()?;
    Some(addr.iter().map(|p| match p {
        Protocol::Ip4(ip) => AddrPart::Ip4(ip.octets()),
        Protocol::Ip6(ip) => AddrPart::Ip6(ip.to_string()),
        Protocol::Dns(d) => AddrPart::Dns(d.to_string()),
        Protocol::Dns4(d) => AddrPart::Dns4(d.to_string()),
        Protocol::Dns6(d) => AddrPart::Dns6(d.to_string()),
        Protocol::Dnsaddr(d) => AddrPart::Dnsaddr(d.to_string()),
        Protocol::Tcp(port) => AddrPart::Tcp(port),
        Protocol::Http => AddrPart::Http,
        Protocol::Https => AddrPart::Https,
        _ => AddrPart::Other,
    }).collect())
}

/// The dotted decimal text of an IPv4 address.
pub open spec fn ip4_text(o: [u8; 4]) -> Seq<char> {
    decimal(o[0] as nat) + "."@ + decimal(o[1] as nat) + "."@ + decimal(o[2] as nat) + "."@ + decimal(o[3] as nat)
}

/// The dotted decimal text of an IPv4 address.
pub fn ip4_to_string(o: [u8; 4]) -> (s: String)
    ensures
        s@ == ip4_text(o),
{
    let mut s = String::new();
    push_decimal(&mut s, o[0] as u64);
    s.append(".");
    push_decimal(&mut s, o[1] as u64);
    s.append(".");
    push_decimal(&mut s, o[2] as u64);
    s.append(".");
    push_decimal(&mut s, o[3] as u64);
    proof {
        assert(s@ =~= ip4_text(o));
    }
    s
}

/// Where the API is reached: protocol, host and port.
#[derive(Debug, Clone)]
pub struct UrlParts {
    pub protocol: String,
    pub port: u16,
    pub host: String,
}

/// The URL parts after reading one component: a host replaces the host (an IPv6 address in
/// brackets), a TCP port the port, `http` or `https` the protocol; other components change
/// nothing.
pub open spec fn url_after(u: (Seq<char>, u16, Seq<char>), p: AddrPart) -> (Seq<char>, u16, Seq<char>) {
    match p {
        AddrPart::Ip4(o) => (u.0, u.1, ip4_text(o)),
        AddrPart::Ip6(h) => (u.0, u.1, "["@ + h@ + "]"@),
        AddrPart::Dns(h) => (u.0, u.1, h@),
        AddrPart::Dns4(h) => (u.0, u.1, h@),
        AddrPart::Dns6(h) => (u.0, u.1, h@),
        AddrPart::Dnsaddr(h) => (u.0, u.1, h@),
        AddrPart::Tcp(port) => (u.0, port, u.2),
        AddrPart::Http => ("http"@, u.1, u.2),
        AddrPart::Https => ("https"@, u.1, u.2),
        AddrPart::Other => u,
    }
}

/// The URL parts of a multiaddress, read from the defaults `http`, port 1234, host `127.0.0.1`.
pub open spec fn url_of_parts(parts: Seq<AddrPart>) -> (Seq<char>, u16, Seq<char>)
    decreases parts.len(),
{
    if parts.len() == 0 {
        (DEFAULT_PROTOCOL@, DEFAULT_PORT, DEFAULT_HOST@)
    } else {
        url_after(url_of_parts(parts.drop_last()), parts.last())
    }
}

/// Whether a component names a host.
pub open spec fn names_host(p: AddrPart) -> bool {
    p is Ip4 || p is Ip6 || p is Dns || p is Dns4 || p is Dns6 || p is Dnsaddr
}

/// Components that name no host leave the host as it was.
proof fn lemma_host_kept(base: Seq<AddrPart>, rest: Seq<AddrPart>)
    requires
        forall|i: int| 0 <= i < rest.len() ==> !names_host(#[trigger] rest[i]),
    ensures
        url_of_parts(base + rest).2 == url_of_parts(base).2,
    decreases rest.len(),
{
    if rest.len() == 0 {
        assert(base + rest =~= base);
    } else {
        let r = rest.drop_last();
        lemma_host_kept(base, r);
        assert((base + rest).drop_last() =~= base + r);
        assert((base + rest).last() == rest.last());
        assert(!names_host(rest[rest.len() - 1]));
    }
}

/// The host of the URL is the one the last host component names: a DNS name as written, an
/// IPv4 address in dotted form, an IPv6 address in brackets; with no host component it is
/// `127.0.0.1`.
pub proof fn law_last_host_component_names_the_host(prefix: Seq<AddrPart>, p: AddrPart, rest: Seq<AddrPart>)
    requires
        forall|i: int| 0 <= i < rest.len() ==> !names_host(#[trigger] rest[i]),
    ensures
        p matches AddrPart::Dns(h) ==> url_of_parts(prefix.push(p) + rest).2 == h@,
        p matches AddrPart::Dns4(h) ==> url_of_parts(prefix.push(p) + rest).2 == h@,
        p matches AddrPart::Dns6(h) ==> url_of_parts(prefix.push(p) + rest).2 == h@,
        p matches AddrPart::Dnsaddr(h) ==> url_of_parts(prefix.push(p) + rest).2 == h@,
        p matches AddrPart::Ip6(h) ==> url_of_parts(prefix.push(p) + rest).2 == "["@ + h@ + "]"@,
        p matches AddrPart::Ip4(o) ==> url_of_parts(prefix.push(p) + rest).2
            == decimal(o[0] as nat) + "."@ + decimal(o[1] as nat) + "."@ + decimal(o[2] as nat) + "."@ + decimal(o[3] as nat),
        url_of_parts(rest).2 == DEFAULT_HOST@,
{
    lemma_host_kept(prefix.push(p), rest);
    lemma_host_kept(Seq::empty(), rest);
    assert(Seq::<AddrPart>::empty() + rest =~= rest);
    assert(prefix.push(p).drop_last() =~= prefix);
}

/// Components that name no port leave the port as it was; components that name no protocol
/// leave the protocol as it was.
proof fn lemma_port_and_protocol_kept(base: Seq<AddrPart>, rest: Seq<AddrPart>)
    ensures
        (forall|i: int| 0 <= i < rest.len() ==> !((#[trigger] rest[i]) is Tcp)) ==> url_of_parts(base + rest).1 == url_of_parts(base).1,
        (forall|i: int| 0 <= i < rest.len() ==> !((#[trigger] rest[i]) is Http || rest[i] is Https)) ==> url_of_parts(base + rest).0 == url_of_parts(base).0,
    decreases rest.len(),
{
    if rest.len() == 0 {
        assert(base + rest =~= base);
    } else {
        let r = rest.drop_last();
        lemma_port_and_protocol_kept(base, r);
        assert((base + rest).drop_last() =~= base + r);
        assert((base + rest).last() == rest[rest.len() - 1]);
        assert forall|i: int| 0 <= i < r.len() implies r[i] == rest[i] by {}
    }
}

/// The port of the URL is the last TCP port given, 1234 without one; the protocol is the last of
/// `http` and `https` given, `http` without one.
pub proof fn law_last_port_and_protocol(prefix: Seq<AddrPart>, p: AddrPart, rest: Seq<AddrPart>)
    ensures
        (forall|i: int| 0 <= i < rest.len() ==> !((#[trigger] rest[i]) is Tcp)) ==> {
            &&& p matches AddrPart::Tcp(port) ==> url_of_parts(prefix.push(p) + rest).1 == port
            &&& url_of_parts(rest).1 == 1234
        },
        (forall|i: int| 0 <= i < rest.len() ==> !((#[trigger] rest[i]) is Http || rest[i] is Https)) ==> {
            &&& p is Http ==> url_of_parts(prefix.push(p) + rest).0 == "http"@
            &&& p is Https ==> url_of_parts(prefix.push(p) + rest).0 == "https"@
            &&& url_of_parts(rest).0 == "http"@
        },
{
    lemma_port_and_protocol_kept(prefix.push(p), rest);
    lemma_port_and_protocol_kept(Seq::empty(), rest);
    assert(Seq::<AddrPart>::empty() + rest =~= rest);
    assert(prefix.push(p).drop_last() =~= prefix);
    reveal_strlit("http");
}

/// The URL of the API: `<protocol>://<host>:<port>/rpc/v0`.
pub open spec fn api_url(parts: Seq<AddrPart>) -> Seq<char> {
    let u = url_of_parts(parts);
    u.0 + "://"@ + u.2 + ":"@ + decimal(u.1 as nat) + "/"@ + RPC_ENDPOINT@
}

/// The URL of the API at a multiaddress.
pub fn multiaddress_to_url(parts: &Vec<AddrPart>) -> (url: String)
    ensures
        url@ == api_url(parts@),
{
    let mut addr = UrlParts {
        protocol: DEFAULT_PROTOCOL.to_owned(),
        port: DEFAULT_PORT,
        host: DEFAULT_HOST.to_owned(),
    };
    let mut i: usize = 0;
    while i < parts.len()
        invariant
            i <= parts@.len(),
            (addr.protocol@, addr.port, addr.host@) == url_of_parts(parts@.take(i as int)),
        decreases parts@.len() - i,
    {
        assert(parts@.take(i + 1).drop_last() =~= parts@.take(i as int));
        match &parts[i] {
            AddrPart::Ip4(o) => addr.host = ip4_to_string(*o),
            AddrPart::Ip6(h) => {
                let mut b = String::from_str("[");
                b.append(h.as_str());
                b.append("]");
                addr.host = b;
            },
            AddrPart::Dns(h) => addr.host = h.clone(),
            AddrPart::Dns4(h) => addr.host = h.clone(),
            AddrPart::Dns6(h) => addr.host = h.clone(),
            AddrPart::Dnsaddr(h) => addr.host = h.clone(),
            AddrPart::Tcp(port) => addr.port = *port,
            AddrPart::Http => addr.protocol = String::from_str("http"),
            AddrPart::Https => addr.protocol = String::from_str("https"),
            AddrPart::Other => {},
        }
        i = i + 1;
    }
    assert(parts@.take(parts@.len() as int) =~= parts@);
    let mut url = addr.protocol.clone();
    url.append("://");
    url.append(addr.host.as_str());
    url.append(":");
    push_decimal(&mut url, addr.port as u64);
    url.append("/");
    url.append(RPC_ENDPOINT);
    url
}

/// Where and how to reach the API.
#[derive(Debug, Clone)]
pub struct ApiInfo {
    pub multiaddr: Vec<AddrPart>,
    pub token: Option<String>,
}

/// The position of the first `c` in `s`.
pub open spec fn first_index_of(s: Seq<char>, c: char) -> Option<int> {
    if exists|i: int| 0 <= i < s.len() && s[i] == c {
        Some(choose|i: int| 0 <= i < s.len() && s[i] == c && forall|j: int| 0 <= j < i ==> s[j] != c)
    } else {
        None
    }
}

/// What the API information text gives: before the first `:` a token and after it the address;
/// without `:`, the whole text is the address. `None` when the address does not parse.
pub open spec fn api_info_of(s: Seq<char>) -> Option<(Seq<AddrPart>, Option<Seq<char>>)> {
    match first_index_of(s, ':') {
        Some(i) => match multiaddr_parts(s.subrange(i + 1, s.len() as int)) {
            Some(parts) => Some((parts, Some(s.subrange(0, i)))),
            None => None,
        },
        None => match multiaddr_parts(s) {
            Some(parts) => Some((parts, None)),
            None => None,
        },
    }
}

/// Reads the API information text (the value of `FULLNODE_API_INFO`, or the default multiaddress).
pub fn parse_api_info(s: &str) -> (r: Option<ApiInfo>)
    ensures
        match r {
            Some(info) => api_info_of(s@) == Some((info.multiaddr@, match info.token {
                Some(t) => Some(t@),
                None => None::<Seq<char>>,
            })),
            None => api_info_of(s@) is None,
        },
{
    let n = s.unicode_len();
    let mut i: usize = 0;
    while i < n
        invariant
            n == s@.len(),
            i <= n,
            forall|j: int| 0 <= j < i ==> s@[j] != ':',
        decreases n - i,
    {
        if s.get_char(i) == ':' {
            assert(s@[i as int] == ':');
            let ghost k = choose|k: int| 0 <= k < s@.len() && s@[k] == ':' && forall|j: int| 0 <= j < k ==> s@[j] != ':';
            assert(k == i) by {
                if k < i {
                } else if k > i {
                    assert(s@[i as int] != ':');
                }
            }
            let jwt = s.substring_char(0, i);
            let host = s.substring_char(i + 1, n);
            return match parse_multiaddr(host) {
                Some(parts) => Some(ApiInfo { multiaddr: parts, token: Some(jwt.to_owned()) }),
                None => None,
            };
        }
        i = i + 1;
    }
    match parse_multiaddr(s) {
        Some(parts) => Some(ApiInfo { multiaddr: parts, token: None }),
        None => None,
    }
}

/// The object of an error reply.
#[derive(Debug, Clone)]
pub struct JsonRpcError {
    pub code: i64,
    pub message: String,
}

/// A reply to a call: a result or an error.
pub enum JsonRpcResponse<R> {
    Result { result: R },
    Error { error: JsonRpcError },
}

/// The error of a failed call.
#[derive(Debug, Clone)]
pub enum RpcError {
    /// An error with code, message and, when there is one, the data as JSON text.
    Full { code: i64, message: String, data: Option<String> },
    /// An error with code and message.
    Provided { code: i64, message: String },
}

/// The outcome of a call from its reply: an error reply becomes a full error without data.
pub fn response_result<R>(resp: JsonRpcResponse<R>) -> (r: Result<R, RpcError>)
    ensures
        match resp {
            JsonRpcResponse::Result { result } => r == Ok::<R, RpcError>(result),
            JsonRpcResponse::Error { error } => r matches Err(RpcError::Full { code, message, data })
                && code == error.code && message@ == error.message@ && data is None,
        },
{
    match resp {
        JsonRpcResponse::Result { result } => Ok(result),
        JsonRpcResponse::Error { error } => Err(RpcError::Full { code: error.code, message: error.message, data: None }),
    }
}

/// The text of an RPC error.
pub open spec fn rpc_error_text(e: RpcError) -> Seq<char> {
    match e {
        RpcError::Full { code, message, data } => match data {
            Some(d) => "rpc error: code: "@ + signed_decimal(code as int) + ", messgae: "@ + message@ + ", data: "@ + d@,
            None => "rpc error: code: "@ + signed_decimal(code as int) + ", messgae: "@ + message@,
        },
        RpcError::Provided { code, message } => "rpc error: code: "@ + signed_decimal(code as int) + ", messgae: "@ + message@,
    }
}

/// Turns the outcome of a call into a result with an error text.
pub trait IntoAnyhow<T> {
    fn into_anyhow(self) -> Result<T, String>;
}

impl<T> IntoAnyhow<T> for Result<T, RpcError> {
    fn into_anyhow(self) -> (r: Result<T, String>)
        ensures
            match self {
                Ok(v) => r == Ok::<T, String>(v),
                Err(e) => r matches Err(t) && t@ == rpc_error_text(e),
            },
    {
        match self {
            Ok(v) => Ok(v),
            Err(e) => {
                let mut t = String::from_str("rpc error: code: ");
                match e {
                    RpcError::Full { code, message, data } => {
                        push_signed_decimal(&mut t, code);
                        t.append(", messgae: ");
                        t.append(message.as_str());
                        match data {
                            Some(d) => {
                                t.append(", data: ");
                                t.append(d.as_str());
                            },
                            None => {},
                        }
                    },
                    RpcError::Provided { code, message } => {
                        push_signed_decimal(&mut t, code);
                        t.append(", messgae: ");
                        t.append(message.as_str());
                    },
                }
                Err(t)
            },
        }
    }
}

} // verus!
