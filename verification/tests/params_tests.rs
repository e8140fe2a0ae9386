use commit2_worker::params::{
    aggregate_errors, check_download_length, check_param_file, content_length, get_full_path_for_file,
    get_param_dir, param_url, select_param_files, verify_digest, FileCheck, FileDigest, ParamFile,
};

#[test]
fn param_dir_defaults() {
    assert_eq!(get_param_dir(None), "/var/tmp/filecoin-proof-parameters");
    assert_eq!(get_param_dir(Some("".into())), "/var/tmp/filecoin-proof-parameters");
    assert_eq!(get_param_dir(Some("/data/params".into())), "/data/params");
    assert_eq!(get_full_path_for_file("/data/params", "a.vk"), "/data/params/a.vk");
    assert_eq!(get_full_path_for_file("/data/params", "/etc/passwd"), "/data/params/etc/passwd");
    assert_eq!(get_full_path_for_file("/data/params/", "//a.vk"), "/data/params/a.vk");
}

#[test]
fn selecting_params_keeps_keys_and_matching_params_files() {
    let files = vec![
        ParamFile { name: "a.params".into(), sector_size: 2048, has_params_extension: true },
        ParamFile { name: "a.vk".into(), sector_size: 2048, has_params_extension: false },
        ParamFile { name: "b.vk".into(), sector_size: 4096, has_params_extension: false },
        ParamFile { name: "c.vk".into(), sector_size: 2048, has_params_extension: false },
        ParamFile { name: "d.params".into(), sector_size: 4096, has_params_extension: true },
    ];
    assert_eq!(
        select_param_files(&files, 2048),
        vec!["a.params".to_string(), "a.vk".to_string(), "b.vk".to_string(), "c.vk".to_string()]
    );
    assert_eq!(
        select_param_files(&files, 1),
        vec!["a.vk".to_string(), "b.vk".to_string(), "c.vk".to_string()]
    );
}

#[test]
fn param_files_are_checked() {
    assert_eq!(check_param_file(false, None, "d"), FileCheck::Download);
    assert_eq!(check_param_file(true, None, "d"), FileCheck::Download);
    assert_eq!(check_param_file(true, Some("d".into()), "d"), FileCheck::UpToDate);
    assert_eq!(check_param_file(true, Some("e".into()), "d"), FileCheck::Replace);
    assert_eq!(verify_digest("a", "a"), Ok(()));
    assert_eq!(verify_digest("a", "b"), Err("file has unexpected digest".to_string()));
}

#[test]
fn download_errors_are_aggregated() {
    assert_eq!(aggregate_errors(&vec![]), None);
    assert_eq!(aggregate_errors(&vec!["one".into()]).as_deref(), Some("Aggregated errors:\none"));
    assert_eq!(
        aggregate_errors(&vec!["one".into(), "two".into(), "three".into()]).as_deref(),
        Some("Aggregated errors:\none\n\ntwo\n\nthree")
    );
}

#[test]
fn downloads_use_the_gateway() {
    assert_eq!(param_url(None, "Qm1"), "https://proofs.filecoin.io/ipfs/Qm1");
    assert_eq!(param_url(Some("http://gw/".into()), "Qm1"), "http://gw/Qm1");
    assert_eq!(content_length(Some("1024".into())), Ok(1024));
    assert_eq!(content_length(Some("x".into())), Err("Couldn't retrieve content length".to_string()));
    assert_eq!(content_length(None), Err("Couldn't retrieve content length".to_string()));
    assert_eq!(check_download_length(5, 5), Ok(()));
    assert!(check_download_length(5, 6).is_err());
}

#[test]
fn file_digest_is_blake2b_prefix() {
    let mut d = FileDigest::new();
    d.absorb(b"ab");
    d.absorb(b"c");
    let expected = blake2b_simd::blake2b(b"abc").to_hex()[..32].to_string();
    assert_eq!(d.finish(), expected);
    assert_eq!(FileDigest::new().finish(), blake2b_simd::blake2b(b"").to_hex()[..32].to_string());
    assert_eq!(d.finish().len(), 32);
}
