//! An HTTP API toolkit: configuration sources and runtime environments, the
//! API's error type and its status codes, standardized response envelopes,
//! request identifiers and the health check.

pub mod clock;
pub mod configuration;
pub mod errors;
pub mod prelude;
pub mod response;
pub mod routes;
pub mod startup;
pub mod status;
pub mod telemetry;
pub mod text;

pub use configuration::{
    configuration_sources, environment_file_name, environment_from_setting, ApplicationSettings, ConfigurationError,
    ConfigurationSource, Environment, Settings,
};
pub use errors::{error_chain_fmt, ApiError};
pub use startup::listen_address;
pub use telemetry::MakeRequestUuid;
