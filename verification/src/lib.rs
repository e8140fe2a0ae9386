//! Verified core of a remote commit2 sealing worker.

pub mod api;
pub mod check_env;
pub mod handler;
pub mod lotus_log;
pub mod params;
pub mod paths;
pub mod rpc_api;
pub mod run;
pub mod storage;
pub mod text;
