//! Client-side logic of a remote code-review and code-generation service:
//! stream decoding, response reconciliation, the task lifecycle and the
//! choice of what code to send for review.
pub mod decoder;
pub mod indicator;
pub mod lifecycle;
pub mod models;
pub mod reconcile;
pub mod source;
