//! A leveled logging facility: records are assembled from typed fragments,
//! tagged with a severity, and formatted into lines for a console sink and a
//! file sink, each gated by its own minimum severity.
pub mod clock;
pub mod laws;
pub mod level;
pub mod logger;
pub mod text;

pub use clock::LocalTime;
pub use level::LogLevel;
pub use logger::{Fragment, LogOutput, Logger};
