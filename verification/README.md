# contrib_receivers

Verified core of two log receivers (a text-file receiver and a PostgreSQL
receiver) that turn source records into logs batches.

- `src/log_record.rs`: the source-neutral log record.
- `src/logs_batch.rs`, `src/clock.rs`: the logs batch built from records and
  stamped with the system time.
- `src/ingest.rs`, `src/ingest_laws.rs`: the batching state machine that the
  ingestion loop follows, and the laws proved of runs of it (no record lost or
  reordered, bounded batches, a drain delivers everything).
- `src/config.rs`, `src/postgres.rs`, `src/text_file.rs`: receiver
  configurations with their defaults, and how rows, lines and failures become
  records and errors.
- `app/`: the asynchronous runtime (serde configuration parsing, the
  `tokio::select!` loop, file and PostgreSQL I/O) around the library.
