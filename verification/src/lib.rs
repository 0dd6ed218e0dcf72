//! Decision logic of a bridge between a file-transfer endpoint and a remote
//! document archive: authentication, the staging of an upload, the
//! observation of the archive's ingestion task, and the pipeline that ties
//! them together.

pub mod auth;
pub mod config;
pub mod observer;
pub mod staging;
pub mod upload;
