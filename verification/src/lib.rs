//! Archive-benchmark library: the decision and encoding logic of a harness
//! that builds tar and gzip archives in process and compares their sizes
//! against the output of external command-line tools.
//!
//! The modules hold the verified core: size comparison and verdict text
//! (`report`), scratch-directory naming from a calendar timestamp
//! (`timestamp`), path construction (`paths`), shell command-line
//! construction for the external tool path (`commands`), and in-memory
//! tar and gzip encoding behind trusted wrappers (`archive`).

pub mod archive;
pub mod commands;
pub mod paths;
pub mod report;
pub mod timestamp;
