use commit2_worker::check_env::{env_shown_value, env_stops, missing_env_message, shown_env, trim_end_commas};
use commit2_worker::handler::{
    path_param_reply, seal_commit2_after_proof, seal_commit2_reply, sealing_log_line, status_reply, ApiError,
    HandlerError, ResponseError,
};
use commit2_worker::lotus_log::{Level, LotusLog};

#[test]
fn handler_errors_answer_with_status_and_text() {
    let e = HandlerError::BadRequest("parse req x".into());
    assert_eq!(e.status(), 400);
    assert_eq!(e.error(), "parse req x");
    assert_eq!(e.to_string(), "bad request: parse req x ");
    let i = HandlerError::InternalServerError("TODO!".into());
    assert_eq!(i.status(), 500);
    assert_eq!(i.to_string(), "internal server error: TODO! ");
}

#[test]
fn response_errors_choose_status() {
    assert_eq!(ResponseError::from_message("x".into()).status(), 500);
    let nf = ResponseError::from_api_error(ApiError::NotFound);
    assert_eq!(nf.status(), 404);
    assert_eq!(nf.message, "not found");
    let br = ResponseError::from_api_error(ApiError::BadRequest);
    assert_eq!(br.status(), 400);
    assert_eq!(br.message, "bad request");
}

#[test]
fn commit2_request_is_not_served_yet() {
    let e = seal_commit2_after_proof(vec![1, 2]);
    assert!(matches!(&e, HandlerError::InternalServerError(m) if m == "TODO!"));
    let (status, body, text) = seal_commit2_reply(Err(e));
    assert_eq!(status, 500);
    assert!(body.is_empty());
    assert_eq!(text.as_deref(), Some("internal server error: TODO! "));
    let (ok_status, ok_body, ok_text) = seal_commit2_reply(Ok(vec![9]));
    assert_eq!((ok_status, ok_body, ok_text), (200, vec![9], None));
}

#[test]
fn handler_replies() {
    assert_eq!(sealing_log_line("p1c2", "host:1", 3).as_deref(), Some("sealSector p1c2,host:1,3"));
    assert_eq!(sealing_log_line("U1C2", "host:1", 3), None);
    let mut addr = String::from("10.0.0.1");
    assert_eq!(status_reply(&mut addr), "10.0.0.12");
    assert_eq!(addr, "10.0.0.12");
    assert_eq!(path_param_reply("sealed", "s-t01-2"), "{type: sealed, id: s-t01-2}");
}

#[test]
fn logger_filters_and_formats() {
    let mut log = LotusLog::new("worker".into(), Level::Info);
    assert!(log.enabled(Level::Error));
    assert!(log.enabled(Level::Info));
    assert!(!log.enabled(Level::Debug));
    assert_eq!(log.format_line(Level::Warn, None, "low disk").as_deref(), Some("WARN\tworker\tlow disk"));
    assert_eq!(log.format_line(Level::Trace, None, "x"), None);
    log.set_time_format("%H:%M".into());
    let line = log.format_line(Level::Error, Some("12:00".into()), "boom").unwrap();
    assert!(line.starts_with("12:00\t"));
    assert!(line.ends_with("\tworker\tboom"));
    assert!(line.contains("\u{1b}["));
    assert!(line.contains('E') && line.contains('R') && line.contains('O'));
}

#[test]
fn environment_report() {
    let names: Vec<String> = shown_env().into_iter().map(|(n, _)| n).collect();
    assert_eq!(names[0], "TMPDIR");
    assert_eq!(names.len(), 9);
    assert_eq!(shown_env()[0].1, true);
    assert!(shown_env()[1..].iter().all(|(_, must)| !must));
    assert_eq!(missing_env_message("TMPDIR"), "env: TMPDIR can't empty");
    assert_eq!(env_shown_value(None), "");
    assert_eq!(env_shown_value(Some("x".into())), "x");
    assert_eq!(trim_end_commas("0,1,,"), "0,1");
    assert_eq!(trim_end_commas(",,,"), "");
    assert_eq!(trim_end_commas("0"), "0");
}

#[test]
fn env_stops_only_for_required_missing_values() {
    assert!(env_stops(None, true));
    assert!(env_stops(Some(""), true));
    assert!(!env_stops(Some("/tmp"), true));
    assert!(!env_stops(None, false));
    assert!(!env_stops(Some(""), false));
}

#[test]
fn status_requests_count_in_twos() {
    let mut addr = String::new();
    assert_eq!(status_reply(&mut addr), "2");
    assert_eq!(status_reply(&mut addr), "22");
    assert_eq!(status_reply(&mut addr), "222");
    assert_eq!(addr, "222");
}

#[test]
fn add_piece_reads_http_roots_from_the_car_directory() {
    let sector = commit2_worker::storage::storiface::SectorId { miner: 1000, number: 7 };
    let (source, staged) = commit2_worker::handler::add_piece_paths("/repo", "car", "http://host/dir/piece.car", sector);
    assert_eq!(source, "/repo/car/s-t01000-7/piece.car");
    assert_eq!(staged, "/repo/unsealed/s-t01000-7");
    let (source, staged) = commit2_worker::handler::add_piece_paths("/repo", "car", "/data/piece.car", sector);
    assert_eq!(source, "/data/piece.car");
    assert_eq!(staged, "/repo/unsealed/s-t01000-7");
    let (source, _) = commit2_worker::handler::add_piece_paths("/repo", "car", "http:x/piece.car", sector);
    assert_eq!(source, "http:x/piece.car");
}
