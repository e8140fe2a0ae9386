use commit2_worker::run::{address_warning, is_bellman_file, parse_sector_size, plan_run, RunOptions};
use commit2_worker::storage::seal_tasks::TaskType;

fn opts() -> RunOptions {
    RunOptions {
        worker_repo: "/home/u/.lotusworker".into(),
        listen: "0.0.0.0:3456".into(),
        ext_address: None,
        address: None,
        sector_size: "32GiB".into(),
        seal_num: 1,
        skip_param: false,
        precommit1: true,
        precommit2: true,
        commit: true,
    }
}

#[test]
fn sector_size_parses_like_parse_size() {
    assert_eq!(parse_sector_size("32GiB"), Ok(34359738368));
    assert_eq!(parse_sector_size("2KiB"), Ok(2048));
    assert_eq!(parse_sector_size("20000"), Ok(20000));
    assert_eq!(parse_sector_size("^_^"), Err("parse sector_size: invalid digit found in string".to_string()));
    assert_eq!(parse_sector_size(""), Err("parse sector_size: cannot parse integer from empty string".to_string()));
}

#[test]
fn plan_with_all_stages() {
    let p = plan_run(&opts(), 34359738368, None);
    assert!(p.fetch_params);
    assert_eq!(p.host, "0.0.0.0:3456");
    assert_eq!(
        p.dirs,
        vec![
            "/home/u/.lotusworker", "/home/u/.lotusworker/cache", "/home/u/.lotusworker/unsealed",
            "/home/u/.lotusworker/sealed", "/home/u/.lotusworker/result", "/home/u/.lotusworker/tmp",
        ]
    );
    assert_eq!(p.seal_num, 1);
    assert_eq!(p.disk_threshold, (34359738368u64 * 11).to_string());
    assert_eq!(p.p1_turbo_num.as_deref(), Some("1"));
    assert!(p.use_cuda);
    assert_eq!(p.tmp_dir, "/home/u/.lotusworker/tmp");
    assert_eq!(
        p.task_types,
        vec![
            TaskType::TTAddPiece, TaskType::TTPreCommit1, TaskType::TTPreCommit2, TaskType::TTCommit1,
            TaskType::TTFinalize, TaskType::TTCommit2, TaskType::TTFinalize,
        ]
    );
    assert_eq!(p.worker_type, "p1p2c2");
    assert_eq!(p.worker_seal_num, 3);
}

#[test]
fn plan_with_commit_only_and_zero_seal_num() {
    let mut o = opts();
    o.precommit1 = false;
    o.precommit2 = false;
    o.seal_num = 0;
    o.skip_param = true;
    o.ext_address = Some("10.0.0.1:3456".into());
    let p = plan_run(&o, 2048, Some("4".into()));
    assert!(!p.fetch_params);
    assert_eq!(p.host, "10.0.0.1:3456");
    assert_eq!(p.seal_num, 1);
    assert_eq!(p.disk_threshold, "22528");
    assert_eq!(p.p1_turbo_num, None);
    assert_eq!(p.task_types, vec![TaskType::TTCommit2, TaskType::TTFinalize]);
    assert_eq!(p.worker_type, "c2");
    assert_eq!(p.worker_seal_num, 3);
}

#[test]
fn plan_precommit2_keeps_a_set_turbo_num() {
    let mut o = opts();
    o.precommit1 = false;
    o.commit = false;
    o.seal_num = 0;
    let p = plan_run(&o, 2048, Some("".into()));
    assert_eq!(p.p1_turbo_num.as_deref(), Some("0"));
    let q = plan_run(&o, 2048, Some("7".into()));
    assert_eq!(q.p1_turbo_num, None);
    assert_eq!(q.worker_type, "p2");
    assert!(!q.use_cuda);
    let mut none = opts();
    none.precommit1 = false;
    none.precommit2 = false;
    none.commit = false;
    let r = plan_run(&none, 2048, None);
    assert_eq!(r.worker_type, "");
    assert!(r.task_types.is_empty());
    assert_eq!(r.worker_seal_num, 1);
}

#[test]
fn deprecated_address_warns() {
    let mut o = opts();
    assert_eq!(address_warning(&o), None);
    o.address = Some("x".into());
    assert_eq!(
        address_warning(&o).as_deref(),
        Some("The '--address' flag is deprecated, it has been replaced by '--listen'")
    );
}

#[test]
fn bellman_files_are_recognised() {
    assert!(is_bellman_file(Some("bellman.gpu.lock")));
    assert!(is_bellman_file(Some("x.bellman")));
    assert!(!is_bellman_file(Some("other")));
    assert!(!is_bellman_file(None));
}

#[test]
fn sector_size_that_rounds_past_the_largest_is_too_large() {
    let too_large = Err("parse sector_size: number too large to fit in target type".to_string());
    assert_eq!(parse_sector_size("184467440737095516155"), too_large);
    assert_eq!(parse_sector_size("18446744073709551615.5"), too_large);
    assert_eq!(parse_sector_size("1844674407370955161.55"), too_large);
    assert_eq!(parse_sector_size("18_446_744_073_709_551_615 7 KiB"), too_large);
    assert_eq!(parse_sector_size("18446744073709551616"), too_large);
    assert_eq!(parse_sector_size("184467440737095516154"), too_large);
    assert_eq!(parse_sector_size("18446744073709551615"), Ok(u64::MAX));
    assert_eq!(parse_sector_size("2KiB"), Ok(2048));
}
