//! A verified delivery pipeline for archiving remote objects.
//!
//! A request names a list of objects held by a remote object store and a
//! target key. The pipeline fetches each object in order, wraps each payload
//! in a stored-method archive entry, and uploads the result as numbered parts
//! of a remote multipart upload, finalized by a single completion call. A
//! request without a target falls back to writing one local archive file.
//!
//! The remote calls themselves are performed by a driver outside this crate:
//! the library exposes state machines whose steps take the store's answer to
//! the last action and decide the next one. Every decision the pipeline
//! makes — skipping failed downloads, numbering parts, closing the queue,
//! completing the session exactly once — is made and proved here.

pub mod archive;
pub mod health;
pub mod local;
pub mod models;
pub mod pipeline;
pub mod queue;
