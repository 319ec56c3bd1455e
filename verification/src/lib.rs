//! A small library for storing short-lived, optionally password-protected
//! text clips addressed by a public short code.
//!
//! The core pieces are validated field types (a clip with invalid fields
//! cannot be constructed), the clip entity itself, an in-memory store with
//! exact contracts, the access-control decision for reading a clip, a
//! hit-count aggregator that batches read counters, and an API-key guard.

pub mod api_key;
pub mod clip;
pub mod dbid;
pub mod field;
pub mod hitcounter;
pub mod laws;
pub mod service;
pub mod shortcode;
pub mod store;
pub mod time;

pub use field::ClipError;
pub use field::Content;
pub use field::Expires;
pub use field::Hits;
pub use field::Password;
pub use field::Posted;
pub use field::Title;
pub use api_key::ApiKey;
pub use api_key::ApiKeyError;
pub use clip::Clip;
pub use clip::ClipRow;
pub use dbid::ClipId;
pub use dbid::DbId;
pub use hitcounter::HitCountMsg;
pub use hitcounter::HitStore;
pub use shortcode::ShortCode;
pub use service::ServiceError;
pub use store::RevocationStatus;
pub use store::Store;
pub use time::Time;
