//! Sector storage: datastore interface, state store, call tracking and sealing types.

pub mod datastore;
pub mod storiface;
pub mod seal_tasks;
pub mod worker_local;
pub mod statestore;
pub mod calltracker;
