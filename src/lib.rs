//! A leveled logger whose decisions are verified: severity filtering, the
//! console and file line formats, the builders of its configuration, and the
//! rotation scheduler that archives log files on aligned hour boundaries.
//!
//! Times are local wall-clock instants counted in seconds from
//! 1970-01-01 00:00:00, up to the end of the year 9999.
use vstd::prelude::*;

pub mod clock;
pub mod level;

pub use clock::ArchiveDurantion;
pub use level::Level;
pub mod config;
pub mod stamp;

pub use config::{LogFile, LogFileBuild, Logger};
pub mod rotation;

pub use rotation::{Rename, Rotation, RotationError};
pub mod dispatch;

pub use dispatch::{Emission, LogError};
