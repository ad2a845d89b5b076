//! Transaction status resolution over a multi-version record model.
//!
//! A transaction that meets another transaction's lock asks for the status
//! of that transaction on its primary key: committed, rolled back, still
//! running, or abandoned. The answer may change the records: an expired
//! lock is rolled back, a live lock gets its `min_commit_ts` pushed.
//!
//! - [`timestamp`], [`lock`], [`write`], [`modify`]: the records and their
//!   mathematical values.
//! - [`store`], [`reader`]: an in-memory store of records and the reads of
//!   one request.
//! - [`txn`], [`concurrency_manager`]: the accumulator of a request and the
//!   coordinator of all requests.
//! - [`actions`], [`prewrite`]: the decisions.
//! - [`commands`], [`scheduler`]: the request and its run.
//! - [`laws`]: what holds of every request on every store.
//! - [`write_batch`], [`write_batch_vec`]: the storage write adapter.

pub mod actions;
pub mod bytes;
pub mod commands;
pub mod concurrency_manager;
pub mod error;
pub mod laws;
pub mod lock;
pub mod modify;
pub mod prewrite;
pub mod reader;
pub mod scheduler;
pub mod store;
pub mod timestamp;
pub mod txn;
pub mod types;
pub mod write;
pub mod write_batch;
pub mod write_batch_vec;
