//! Verified core of the log-record receivers: the record model, the
//! logs batch built from records, the batching state machine that drives a
//! log-record source, and the configuration and row/line mapping rules of the
//! PostgreSQL and text-file receivers.

pub mod log_record;
pub mod clock;
pub mod logs_batch;
pub mod ingest;
pub mod ingest_laws;
pub mod config;
pub mod postgres;
pub mod text_file;
