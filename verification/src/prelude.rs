//! Common imports: the most used types in one `use`.

pub use crate::configuration::{ApplicationSettings, Environment, Settings};
pub use crate::errors::ApiError;
pub use crate::response::{ApiResponse, ApiResult};
pub use crate::status::StatusCode;
