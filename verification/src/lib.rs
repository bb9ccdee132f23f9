//! Ingestion of address labels from a job-based remote query service.
//!
//! The service hands out the addresses that carry a label page by page: a
//! query is registered, a run of it is asked for, the job is asked about until
//! the service no longer runs it, and its rows are fetched. This library holds
//! the logic of that ingestion as state machines that do no I/O:
//!
//! - [`query_task`]: the pipeline of one work item, page after page;
//! - [`orchestrator`]: a bounded number of pipelines side by side;
//! - [`sink`]: the write of one page to storage as one transaction;
//! - [`runs`]: what holds of every run of a pipeline;
//! - [`domain`]: the requests that go to the service, the answers that come
//!   back, and the records in them;
//! - [`json`], [`json_text`]: the JSON values that requests and answers are,
//!   and the reading of JSON text with `serde_json`;
//! - [`configuration`], [`text`], [`views`]: what the others share.
//!
//! A driver makes the calls and the writes that the state machines ask for and
//! hands the outcomes back to them.

pub mod configuration;
pub mod domain;
pub mod json;
pub mod json_text;
pub mod orchestrator;
pub mod query_task;
pub mod runs;
pub mod sink;
pub mod text;
pub mod views;
