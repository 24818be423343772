//! Diagnosis of application logs: a fixed catalogue of independent rules, each
//! of which recognises one known failure in the text of a log and reports it
//! with a title, a description and a severity.

pub mod catalogue;
pub mod checks;
pub mod environment;
pub mod java_version;
pub mod log_upload;
pub mod pattern;
pub mod report;
pub mod severity;
pub mod text;

pub use catalogue::{check_checks, Rule};
pub use environment::{EnvironmentContext, Launcher};
pub use report::CheckReport;
pub use severity::Severity;
