//! A high-throughput structured-logging daemon, verified.
//!
//! Clients push JSON log records over a local stream socket as length-prefixed
//! frames. Each record is validated against a schema, batched in memory, and
//! persisted as one complete columnar file per flush; a read path decodes the
//! stored files back for analytical queries.
//!
//! The library holds the daemon's logic: the frame reader ([`frame`]), the
//! schema validator and typed projection ([`schema`]), the per-connection
//! pipeline with its drop accounting ([`conn`]), the storage engine with its
//! conservation ledger ([`storage`]), the flusher's decisions ([`flusher`]),
//! the query path ([`query`]), and the laws that tie them together ([`laws`],
//! [`pipeline`]). The I/O around it — sockets, files, timers, the metrics
//! endpoint — lives with the caller.

pub mod api;
pub mod codec;
pub mod config;
pub mod conn;
pub mod entry;
pub mod flusher;
pub mod frame;
pub mod laws;
pub mod metrics;
pub mod pipeline;
pub mod pq;
pub mod query;
pub mod row;
pub mod schema;
pub mod storage;
pub mod text;
pub mod tracespan;
