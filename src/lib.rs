//! Environment-readiness checking: tools and their versions, environment
//! variables, free ports, paths and reachable endpoints, each evaluated
//! against what was observed of the machine, and the results aggregated.
pub mod text;
pub mod config;
pub mod validators;
pub mod reporter;

pub use config::Config;
pub use reporter::Reporter;
pub use validators::{ValidationResult, ValidationStatus, Validator};
