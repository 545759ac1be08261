//! Typed extraction of a validated value from a raw query string.
//!
//! A raw query string is decoded into a target type, the decoded value is
//! validated, and a failure of either step is turned into the transport
//! error of the hosting framework: through the error hook of the route where
//! one is configured, through the transport error's own conversion
//! otherwise.

pub mod config;
pub mod error;
pub mod laws;
pub mod pipeline;
pub mod query;

pub use config::{resolve, RouteConfig, StructuralConfig};
pub use error::{bridge, BadRequest, FailureKind, InternalError};
pub use pipeline::{decode_and_validate, extract, finalize, Decodable, Validatable};
pub use query::ValidateQsQuery;
