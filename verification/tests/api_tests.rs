use commit2_worker::api::{
    ip4_to_string, multiaddress_to_url, parse_api_info, response_result, AddrPart, IntoAnyhow, JsonRpcError,
    JsonRpcResponse, RpcError, StorageMinerError, DEFAULT_MULTIADDRESS,
};
use commit2_worker::rpc_api::{check_access, method_access, Access, Version, APIVersion};

#[test]
fn default_address_gives_local_url() {
    let info = parse_api_info(DEFAULT_MULTIADDRESS).unwrap();
    assert_eq!(info.token, None);
    assert_eq!(multiaddress_to_url(&info.multiaddr), "http://127.0.0.1:1234/rpc/v0");
}

#[test]
fn api_info_with_token() {
    let info = parse_api_info("eyJhbGci.token:/ip4/10.1.2.3/tcp/2345/http").unwrap();
    assert_eq!(info.token.as_deref(), Some("eyJhbGci.token"));
    assert_eq!(multiaddress_to_url(&info.multiaddr), "http://10.1.2.3:2345/rpc/v0");
}

#[test]
fn api_info_with_dns_and_https() {
    let info = parse_api_info("/dns4/miner.example/tcp/443/https").unwrap();
    assert_eq!(multiaddress_to_url(&info.multiaddr), "https://miner.example:443/rpc/v0");
    // the first `:` separates the token, so an IPv6 address needs a token before it
    assert!(parse_api_info("/ip6/::1/tcp/1234").is_none());
    let v6 = parse_api_info("tok:/ip6/::1/tcp/1234").unwrap();
    assert_eq!(v6.token.as_deref(), Some("tok"));
    assert_eq!(multiaddress_to_url(&v6.multiaddr), "http://[::1]:1234/rpc/v0");
}

#[test]
fn bad_api_info_is_refused() {
    assert!(parse_api_info("not a multiaddr").is_none());
    assert!(parse_api_info("tok:/ip4/999.0.0.1/tcp/1").is_none());
}

#[test]
fn url_from_parts_applies_each_part() {
    let parts = vec![AddrPart::Ip4([192, 168, 0, 7]), AddrPart::Other, AddrPart::Tcp(80), AddrPart::Https, AddrPart::Http];
    assert_eq!(multiaddress_to_url(&parts), "http://192.168.0.7:80/rpc/v0");
    assert_eq!(multiaddress_to_url(&vec![]), "http://127.0.0.1:1234/rpc/v0");
    assert_eq!(ip4_to_string([255, 0, 10, 1]), "255.0.10.1");
}

#[test]
fn rpc_errors_read_as_text() {
    let full: Result<(), RpcError> = Err(RpcError::Full { code: -32601, message: "no method".into(), data: Some("{\"x\":1}".into()) });
    assert_eq!(full.into_anyhow(), Err("rpc error: code: -32601, messgae: no method, data: {\"x\":1}".to_string()));
    let bare: Result<(), RpcError> = Err(RpcError::Full { code: 1, message: "m".into(), data: None });
    assert_eq!(bare.into_anyhow(), Err("rpc error: code: 1, messgae: m".to_string()));
    let provided: Result<(), RpcError> = Err(RpcError::Provided { code: 2, message: "p".into() });
    assert_eq!(provided.into_anyhow(), Err("rpc error: code: 2, messgae: p".to_string()));
    let ok: Result<u8, RpcError> = Ok(3);
    assert_eq!(ok.into_anyhow(), Ok(3));
}

#[test]
fn replies_become_results() {
    let r: JsonRpcResponse<u32> = JsonRpcResponse::Result { result: 9 };
    assert!(matches!(response_result(r), Ok(9)));
    let e: JsonRpcResponse<u32> = JsonRpcResponse::Error { error: JsonRpcError { code: 7, message: "bad".into() } };
    assert!(matches!(response_result(e), Err(RpcError::Full { code: 7, ref message, data: None }) if message == "bad"));
}

#[test]
fn storage_miner_error_text() {
    let e = StorageMinerError { code: -1, message: "oops".into() };
    assert_eq!(e.to_string(), "code -1, msg: oops");
}

#[test]
fn access_is_checked_against_claims() {
    let claims = vec!["read".to_string(), "write".to_string()];
    assert!(check_access(&Access::Read, &claims));
    assert!(check_access(&Access::Write, &claims));
    assert!(!check_access(&Access::Admin, &claims));
    assert!(!check_access(&Access::Sign, &claims));
    assert!(!check_access(&Access::Read, &[]));
}

#[test]
fn methods_have_access_levels() {
    assert_eq!(method_access("Filecoin.AuthNew"), Some(Access::Admin));
    assert_eq!(method_access("Filecoin.AuthVerify"), Some(Access::Read));
    assert_eq!(method_access("Filecoin.Version"), Some(Access::Read));
    assert_eq!(method_access("Filecoin.Shutdown"), Some(Access::Admin));
    assert_eq!(method_access("Filecoin.StartTime"), Some(Access::Read));
    assert_eq!(method_access("Filecoin.Other"), None);
}

#[test]
fn version_packs_parts() {
    assert_eq!(Version::new(1, 2, 3).0, 0x010203);
    assert_eq!(Version::new(0, 0, 0).0, 0);
    // parts are truncated to 32 bits and combined with bitwise or
    assert_eq!(Version::new(0x1_0000_0001, 0x101, 0x2).0, (1 << 16) | (0x101 << 8) | 2);
    let v = APIVersion { version: "1.0.0".into(), api_version: Version::new(1, 0, 0), block_delay: 30 };
    assert_eq!(v.api_version.0 >> 16, 1);
}
