//! The configuration of each rule, and the validator that goes with it.

pub mod body_config;
pub mod footer_config;
pub mod scope_config;
pub mod subject_config;
pub mod type_config;

pub use body_config::BodyConfig;
pub use footer_config::FooterConfig;
pub use scope_config::ScopeConfig;
pub use subject_config::SubjectConfig;
pub use type_config::TypeConfig;
