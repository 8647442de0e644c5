//! Generator-plugin library for a GitOps delivery controller: bearer-token
//! authentication, tenant-configuration row decoding, label filtering, and
//! flattening of tenant records into per-tenant parameter maps.

pub mod auth;
pub mod decode;
pub mod endpoint;
pub mod engine;
pub mod error;
pub mod handler;
pub mod laws;
pub mod maps;
pub mod record;
pub mod request;

pub use decode::{DbValue, RawRow};
pub use engine::{OutMap, OutValue};
pub use error::AppError;
pub use handler::{PluginResponse, Step};
pub use maps::{KvList, StrMap};
pub use record::TenantConfigRecord;
pub use request::{ReqParams, ReqValue};
