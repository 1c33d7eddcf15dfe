//! Build coordinator for device-assembly crates: naming-slot protocol,
//! driver arguments, diagnostics filtering and artifact resolution.

pub mod builder;
pub mod config;
pub mod error;
pub mod laws;
pub mod session;
pub mod source;
pub mod text;

pub use builder::{BuildOutput, BuildStatus, Builder};
pub use config::{CrateType, DeclaredType, MessageFormat, Profile};
pub use error::BuildErrorKind;
pub use session::{BuildAction, BuildEvent, Session, Stage};
pub use source::SourceCrate;
