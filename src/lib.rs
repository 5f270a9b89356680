//! Contact-form intake: validation of inbound submissions, the stored record
//! and its outbound shape, the uniform response envelopes, and the schema
//! steps that prepare the store.

pub mod text;
pub mod goal;
pub mod submission;
pub mod render;
pub mod record;
pub mod envelope;
pub mod boundary;
pub mod schema;

pub use envelope::{ApiError, ApiResponse};
